use cloud_client::auth::{AuthError, AuthMethod, AuthStrategy, AuthToken, TOKEN_LIFETIME_SECS};
use std::cell::Cell;

fn service_token(now: u64) -> AuthToken {
    AuthToken::from_exchange(
        "tok-1".to_string(),
        now,
        AuthStrategy::ServiceAccount {
            client_id: "id".to_string(),
            client_secret: "secret".to_string(),
        },
    )
}

#[test]
fn auth_header_renders_bearer_credential() {
    let token = service_token(1_000);
    assert_eq!(token.to_auth_header(), "Bearer tok-1");
}

#[test]
fn method_reports_strategy_tag() {
    let token = service_token(0);
    assert_eq!(token.method(), AuthMethod::ServiceAccount);
    let interactive = AuthToken::from_exchange(
        "tok-2".to_string(),
        0,
        AuthStrategy::Interactive { refresh_material: "mat".to_string() },
    );
    assert_eq!(interactive.method(), AuthMethod::Interactive);
}

#[test]
fn refresh_is_noop_while_fresh() {
    let mut token = service_token(1_000);
    let calls = Cell::new(0u32);
    let r = token.refresh(1_000 + TOKEN_LIFETIME_SECS, |_s| {
        calls.set(calls.get() + 1);
        Ok("tok-new".to_string())
    });
    assert!(r.is_ok());
    assert_eq!(calls.get(), 0);
    assert_eq!(token.to_auth_header(), "Bearer tok-1");
}

#[test]
fn refresh_rederives_expired_credential_with_same_strategy() {
    let mut token = service_token(1_000);
    let calls = Cell::new(0u32);
    let later = 1_000 + TOKEN_LIFETIME_SECS + 1;
    let r = token.refresh(later, |s| {
        calls.set(calls.get() + 1);
        match s {
            AuthStrategy::ServiceAccount { client_id, client_secret } => {
                assert_eq!(client_id, "id");
                assert_eq!(client_secret, "secret");
            },
            AuthStrategy::Interactive { .. } => panic!("strategy was re-tagged"),
        }
        Ok("tok-new".to_string())
    });
    assert!(r.is_ok());
    assert_eq!(calls.get(), 1);
    assert_eq!(token.to_auth_header(), "Bearer tok-new");
    assert_eq!(token.method(), AuthMethod::ServiceAccount);
}

#[test]
fn refresh_of_revoked_credential_fails() {
    let mut token = service_token(0);
    let r = token.refresh(TOKEN_LIFETIME_SECS + 1, |_s| Err(AuthError::InvalidCredentials));
    assert_eq!(r, Err(AuthError::RefreshFailed));
    // the old credential stays in place
    assert_eq!(token.to_auth_header(), "Bearer tok-1");
}
