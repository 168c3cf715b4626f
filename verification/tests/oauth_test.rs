use feishu_mcp::auth::oauth::{OAuthError, OAuthManager, TenantAccessToken, TokenAction, TokenResponse};
use feishu_mcp::clock::{current_timestamp, unix_seconds};

fn manager() -> OAuthManager {
    OAuthManager::new("cli_app".to_string(), "secret".to_string(), "https://open.feishu.cn/open-apis".to_string())
}

#[test]
fn token_request() {
    let m = manager();
    assert_eq!(m.token_url(), "https://open.feishu.cn/open-apis/auth/v3/tenant_access_token/internal");
    let body = m.token_request_body();
    assert_eq!(body.app_id, "cli_app");
    assert_eq!(body.app_secret, "secret");
}

#[test]
fn token_answer_is_read() {
    let resp = TokenResponse { code: 0, msg: "ok".into(), tenant_access_token: Some("t-1".into()), expire: Some(3600) };
    let t = OAuthManager::token_from_response(resp, 1000).unwrap();
    assert_eq!(t.token, "t-1");
    assert_eq!(t.expire, 4600);
    let resp = TokenResponse { code: 0, msg: "ok".into(), tenant_access_token: Some("t-2".into()), expire: None };
    assert_eq!(OAuthManager::token_from_response(resp, 1000).unwrap().expire, 8200);
    let resp = TokenResponse { code: 0, msg: "ok".into(), tenant_access_token: None, expire: Some(1) };
    let e = OAuthManager::token_from_response(resp, 1000).unwrap_err();
    assert!(matches!(e, OAuthError::MissingToken));
    assert_eq!(e.to_string(), "Missing tenant_access_token in response");
    let resp = TokenResponse { code: 10003, msg: "invalid param".into(), tenant_access_token: None, expire: None };
    let e = OAuthManager::token_from_response(resp, 1000).unwrap_err();
    assert_eq!(e.to_string(), "Failed to get token: 10003 - invalid param");
}

#[test]
fn cached_token_until_expiry() {
    let mut m = manager();
    assert!(m.cached_token_at(0).is_none());
    m.set_token(TenantAccessToken { token: "t".into(), expire: 500 });
    assert_eq!(m.cached_token_at(499).map(|t| t.token), Some("t".to_string()));
    assert!(m.cached_token_at(500).is_none());
    assert!(m.fresh_copy().cached_token_at(0).is_none());
}

#[test]
fn expiry_by_instant_and_clock() {
    let t = TenantAccessToken { token: "x".into(), expire: 10 };
    assert!(!t.is_expired_at(9));
    assert!(t.is_expired_at(10));
    assert!(t.is_expired());
    let far = TenantAccessToken { token: "x".into(), expire: u64::MAX };
    assert!(!far.is_expired());
    let mut m = manager();
    m.set_token(far);
    assert!(m.cached_token().is_some());
}

#[test]
fn error_answer_at_latest_instant() {
    let resp = TokenResponse { code: 99991663, msg: "app not found".into(), tenant_access_token: None, expire: Some(u64::MAX) };
    let e = OAuthManager::token_from_response(resp, u64::MAX).unwrap_err();
    assert_eq!(e.to_string(), "Failed to get token: 99991663 - app not found");
}

#[test]
fn refresh_step_serves_cache_or_fetches() {
    let mut m = manager();
    assert!(matches!(m.refresh_step(Some(100)), TokenAction::Fetch));
    m.set_token(TenantAccessToken { token: "t".into(), expire: 500 });
    match m.refresh_step(Some(499)) {
        TokenAction::UseCached(t) => assert_eq!(t.token, "t"),
        other => panic!("unexpected {:?}", other),
    }
    assert!(matches!(m.refresh_step(Some(500)), TokenAction::Fetch));
    assert!(matches!(m.refresh_step(None), TokenAction::Fetch));
}

#[test]
fn clock_before_epoch_expires_every_token() {
    let far = TenantAccessToken { token: "x".into(), expire: u64::MAX };
    assert!(far.is_expired_by(None));
    assert!(!far.is_expired_by(Some(5)));
    let mut m = manager();
    m.set_token(far);
    assert!(m.cached_token_by(None).is_none());
    assert_eq!(m.cached_token_by(Some(5)).map(|t| t.token), Some("x".to_string()));
}

#[test]
fn clock_reads_after_epoch() {
    let secs = unix_seconds().unwrap();
    assert!(secs > 1_600_000_000);
    assert!(current_timestamp() >= secs);
}
