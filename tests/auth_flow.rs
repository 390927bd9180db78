use kindle_sender::auth::{
    token_failure_text, token_reply_accepted, AuthAction, AuthEvent, AuthFlow, AuthStage, AzureService, CodeSlot,
};
use kindle_sender::credential::TokenResponse;

fn credential(access: &str, refresh: Option<&str>, expires_in: u32, expires_at: Option<i64>) -> TokenResponse {
    TokenResponse {
        access_token: access.to_string(),
        refresh_token: refresh.map(|r| r.to_string()),
        id_token: None,
        expires_in,
        token_type: "Bearer".to_string(),
        expires_at,
    }
}

fn service() -> AzureService<'static> {
    AzureService::new("client-1", "app-secret", "common", "http://localhost:8080/callback")
}

#[test]
fn validity_follows_expiry() {
    let c = credential("a", None, 3600, Some(1000));
    assert!(c.is_token_valid_at(999));
    assert!(!c.is_token_valid_at(1000));
    assert!(!c.is_token_valid_at(2000));
    let never = credential("a", None, 3600, None);
    assert!(!never.is_token_valid_at(0));
}

#[test]
fn validity_against_the_clock() {
    assert!(credential("a", None, 0, Some(i64::MAX)).is_token_valid());
    assert!(!credential("a", None, 0, Some(0)).is_token_valid());
    assert!(!credential("a", None, 0, None).is_token_valid());
}

#[test]
fn stamping_adds_the_lifetime_once() {
    let mut c = credential("a", None, 3600, None);
    c.stamp(1_700_000_000);
    assert_eq!(c.expires_at, Some(1_700_003_600));
    let mut edge = credential("a", None, 10, None);
    edge.stamp(i64::MAX - 5);
    let mut before_epoch = credential("a", None, 60, None);
    before_epoch.stamp(-100);
    assert_eq!(before_epoch.expires_at, Some(-40));
    assert_eq!(edge.expires_at, Some(i64::MAX));
}

#[test]
fn valid_cache_needs_no_network() {
    let (mut flow, first) = AuthFlow::new();
    assert!(matches!(first, AuthAction::LoadCache));
    let cached = credential("cached-token", Some("r1"), 3600, Some(5000));
    match flow.advance_at(AuthEvent::CacheLoaded(Some(cached)), 4000) {
        AuthAction::Done(t) => assert_eq!(t, "cached-token"),
        _ => panic!("expected the cached token"),
    }
    assert_eq!(flow.stage, AuthStage::Finished);
}

#[test]
fn expired_cache_is_refreshed_and_restamped() {
    let (mut flow, _) = AuthFlow::new();
    let cached = credential("old-token", Some("refresh-1"), 3600, Some(1000));
    match flow.advance_at(AuthEvent::CacheLoaded(Some(cached)), 2000) {
        AuthAction::Refresh(r) => assert_eq!(r, "refresh-1"),
        _ => panic!("expected a refresh"),
    }
    let issued = credential("new-token", Some("refresh-2"), 600, None);
    assert!(matches!(flow.advance_at(AuthEvent::TokenIssued(issued), 2100), AuthAction::Persist));
    let pending = flow.pending_credential().unwrap();
    assert_eq!(pending.expires_at, Some(2700));
    assert_eq!(pending.access_token, "new-token");
    match flow.advance_at(AuthEvent::Persisted, 2101) {
        AuthAction::Done(t) => assert_ne!(t, "old-token"),
        _ => panic!("expected the new token"),
    }
}

#[test]
fn failed_refresh_falls_through_to_interactive() {
    let (mut flow, _) = AuthFlow::new();
    let cached = credential("old", Some("r"), 3600, Some(1));
    assert!(matches!(flow.advance_at(AuthEvent::CacheLoaded(Some(cached)), 10), AuthAction::Refresh(_)));
    let a = flow.advance_at(AuthEvent::TokenRequestFailed("status 400".to_string()), 11);
    assert!(matches!(a, AuthAction::AwaitCode));
    match flow.advance_at(AuthEvent::CodeReceived("code-9".to_string()), 12) {
        AuthAction::Exchange(c) => assert_eq!(c, "code-9"),
        _ => panic!("expected an exchange"),
    }
    let issued = credential("fresh", None, 100, None);
    assert!(matches!(flow.advance_at(AuthEvent::TokenIssued(issued), 20), AuthAction::Persist));
    assert_eq!(flow.pending_credential().unwrap().expires_at, Some(120));
    match flow.advance_at(AuthEvent::Persisted, 21) {
        AuthAction::Done(t) => assert_eq!(t, "fresh"),
        _ => panic!("expected the token"),
    }
}

#[test]
fn missing_cache_or_refresh_token_goes_interactive() {
    let (mut flow, _) = AuthFlow::new();
    assert!(matches!(flow.advance_at(AuthEvent::CacheLoaded(None), 10), AuthAction::AwaitCode));
    let (mut flow2, _) = AuthFlow::new();
    let cached = credential("old", None, 3600, None);
    assert!(matches!(flow2.advance_at(AuthEvent::CacheLoaded(Some(cached)), 10), AuthAction::AwaitCode));
}

#[test]
fn authentication_errors_carry_their_cause() {
    let (mut flow, _) = AuthFlow::new();
    flow.advance_at(AuthEvent::CacheLoaded(None), 10);
    match flow.advance_at(AuthEvent::CodeNotReceived, 11) {
        AuthAction::Fail(e) => assert_eq!(e.to_string(), "Failed to receive auth code"),
        _ => panic!("expected a failure"),
    }
    let (mut flow2, _) = AuthFlow::new();
    flow2.advance_at(AuthEvent::CacheLoaded(None), 10);
    flow2.advance_at(AuthEvent::CodeReceived("c".to_string()), 11);
    match flow2.advance_at(AuthEvent::TokenRequestFailed("timeout".to_string()), 12) {
        AuthAction::Fail(e) => assert_eq!(e.message, "Error exchanging code for token: timeout"),
        _ => panic!("expected a failure"),
    }
    let (mut flow3, _) = AuthFlow::new();
    flow3.advance_at(AuthEvent::CacheLoaded(None), 10);
    flow3.advance_at(AuthEvent::CodeReceived("c".to_string()), 11);
    flow3.advance_at(AuthEvent::TokenIssued(credential("t", None, 5, None)), 12);
    match flow3.advance_at(AuthEvent::PersistFailed("disk full".to_string()), 13) {
        AuthAction::Fail(e) => assert_eq!(e.message, "Error writing token to file: disk full"),
        _ => panic!("expected a failure"),
    }
    assert_eq!(flow3.stage, AuthStage::Failed);
}

#[test]
fn events_out_of_order_fail_the_run() {
    let (mut flow, _) = AuthFlow::new();
    match flow.advance_at(AuthEvent::Persisted, 1) {
        AuthAction::Fail(e) => assert_eq!(e.message, "authentication step out of order"),
        _ => panic!("expected a failure"),
    }
}

#[test]
fn advance_uses_the_clock() {
    let (mut flow, _) = AuthFlow::new();
    let cached = credential("far", None, 0, Some(i64::MAX));
    assert!(matches!(flow.advance(AuthEvent::CacheLoaded(Some(cached))), AuthAction::Done(_)));
}

#[test]
fn authorization_url_names_client_tenant_redirect_and_scopes() {
    assert_eq!(
        service().authorization_url(),
        "https://login.microsoftonline.com/common/oauth2/v2.0/authorize?client_id=client-1&response_type=code&redirect_uri=http://localhost:8080/callback&response_mode=query&scope=offline_access%20Mail.Send"
    );
    assert_eq!(service().token_url(), "https://login.microsoftonline.com/common/oauth2/v2.0/token");
}

#[test]
fn token_forms_carry_the_grants() {
    let s = service();
    let f = s.exchange_form("abc", "http://localhost:8080/callback");
    let expected: Vec<(String, String)> = vec![
        ("client_id".to_string(), "client-1".to_string()),
        ("scope".to_string(), "Mail.Send".to_string()),
        ("code".to_string(), "abc".to_string()),
        ("redirect_uri".to_string(), "http://localhost:8080/callback".to_string()),
        ("grant_type".to_string(), "authorization_code".to_string()),
        ("client_secret".to_string(), "app-secret".to_string()),
    ];
    assert_eq!(f, expected);
    let r = s.refresh_form("rt");
    assert_eq!(r.len(), 5);
    assert_eq!(r[1].1, "https://graph.microsoft.com/.default");
    assert_eq!(r[2], ("refresh_token".to_string(), "rt".to_string()));
    assert_eq!(r[3].1, "refresh_token");
}

#[test]
fn code_slot_delivers_once() {
    let mut slot = CodeSlot::new();
    assert_eq!(slot.offer(None), None);
    assert_eq!(slot.offer(Some("first".to_string())), Some("first".to_string()));
    assert_eq!(slot.offer(Some("second".to_string())), None);
    assert!(slot.delivered);
}

#[test]
fn token_endpoint_status_is_judged() {
    assert!(token_reply_accepted(200));
    assert!(!token_reply_accepted(400));
    assert_eq!(token_failure_text(400, "invalid_grant"), "400 invalid_grant");
}
