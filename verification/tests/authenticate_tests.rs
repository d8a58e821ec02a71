use cloud_client::api_client::{PythonVersion, RestClient, VersionInfo, WrappedAPIClient};
use cloud_client::auth::{AuthError, AuthMethod};
use cloud_client::error::{ApiError, RestError};
use std::cell::Cell;

fn versions() -> VersionInfo {
    VersionInfo {
        polars_version: "1.0.0".to_string(),
        python_version: PythonVersion { major: 3, minor: 11, patch: 0 },
    }
}

struct Counters {
    exchanges: Cell<u32>,
    probes: Cell<u32>,
    logins: Cell<u32>,
}

impl Counters {
    fn new() -> Counters {
        Counters { exchanges: Cell::new(0), probes: Cell::new(0), logins: Cell::new(0) }
    }
}

#[test]
fn one_of_the_credential_pair_is_a_usage_error_with_zero_calls() {
    let mut client = WrappedAPIClient::new(versions());
    let c = Counters::new();
    let r = client.authenticate(
        0,
        Some("id".to_string()),
        None,
        true,
        |_i, _s| {
            c.exchanges.set(c.exchanges.get() + 1);
            Ok("cred".to_string())
        },
        |_s| Ok("cred".to_string()),
        |_rest: RestClient| {
            c.probes.set(c.probes.get() + 1);
            Ok(())
        },
        || {
            c.logins.set(c.logins.get() + 1);
            Ok("cred".to_string())
        },
    );
    assert!(matches!(r, Err(ApiError::Usage { .. })));
    assert_eq!(c.exchanges.get(), 0);
    assert_eq!(c.probes.get(), 0);
    assert_eq!(c.logins.get(), 0);
    assert_eq!(client.get_auth_method(), None);

    // the mirrored case: only the secret
    let r = client.authenticate(
        0,
        None,
        Some("secret".to_string()),
        true,
        |_i, _s| Ok("cred".to_string()),
        |_s| Ok("cred".to_string()),
        |_rest: RestClient| Ok(()),
        || Ok("cred".to_string()),
    );
    assert!(matches!(r, Err(ApiError::Usage { .. })));
}

#[test]
fn explicit_credentials_are_exchanged_and_probed() {
    let mut client = WrappedAPIClient::new(versions());
    let c = Counters::new();
    let r = client.authenticate(
        0,
        Some("id".to_string()),
        Some("secret".to_string()),
        true,
        |i, s| {
            c.exchanges.set(c.exchanges.get() + 1);
            assert_eq!(i, "id");
            assert_eq!(s, "secret");
            Ok("sa-cred".to_string())
        },
        |_s| Ok("never".to_string()),
        |rest: RestClient| {
            c.probes.set(c.probes.get() + 1);
            assert_eq!(rest.auth_header, "Bearer sa-cred");
            Ok(())
        },
        || {
            c.logins.set(c.logins.get() + 1);
            Ok("cred".to_string())
        },
    );
    assert!(r.is_ok());
    assert_eq!(c.exchanges.get(), 1);
    assert_eq!(c.probes.get(), 1);
    assert_eq!(c.logins.get(), 0);
    assert_eq!(client.get_auth_method(), Some(AuthMethod::ServiceAccount));
}

#[test]
fn rejected_exchange_propagates_invalid_credentials() {
    let mut client = WrappedAPIClient::new(versions());
    let c = Counters::new();
    let r = client.authenticate(
        0,
        Some("id".to_string()),
        Some("bad".to_string()),
        true,
        |_i, _s| Err(AuthError::InvalidCredentials),
        |_s| Ok("never".to_string()),
        |_rest: RestClient| {
            c.probes.set(c.probes.get() + 1);
            Ok(())
        },
        || {
            c.logins.set(c.logins.get() + 1);
            Ok("cred".to_string())
        },
    );
    assert!(matches!(r, Err(ApiError::Auth(AuthError::InvalidCredentials))));
    assert_eq!(c.probes.get(), 0);
    assert_eq!(c.logins.get(), 0);
    assert_eq!(client.get_auth_method(), None);
}

#[test]
fn failing_probe_with_explicit_credentials_never_falls_back() {
    let mut client = WrappedAPIClient::new(versions());
    let c = Counters::new();
    let r = client.authenticate(
        0,
        Some("id".to_string()),
        Some("secret".to_string()),
        true,
        |_i, _s| Ok("sa-cred".to_string()),
        |_s| Ok("never".to_string()),
        |_rest: RestClient| {
            c.probes.set(c.probes.get() + 1);
            Err(RestError { status: 401, body: "unauthorized".to_string() })
        },
        || {
            c.logins.set(c.logins.get() + 1);
            Ok("cred".to_string())
        },
    );
    match r {
        Err(ApiError::Rest { status, auth_method, .. }) => {
            assert_eq!(status, 401);
            assert_eq!(auth_method, Some(AuthMethod::ServiceAccount));
        },
        other => panic!("expected the probe's error, got {:?}", other),
    }
    assert_eq!(c.logins.get(), 0);
    assert_eq!(client.get_auth_method(), Some(AuthMethod::ServiceAccount));
}

#[test]
fn failing_probe_without_credentials_triggers_one_interactive_login() {
    let mut client = WrappedAPIClient::new(versions());
    client.login(0, || Ok("stale-cred".to_string())).unwrap();
    let c = Counters::new();
    let r = client.authenticate(
        1,
        None,
        None,
        true,
        |_i, _s| {
            c.exchanges.set(c.exchanges.get() + 1);
            Ok("never".to_string())
        },
        |_s| Ok("stale-cred".to_string()),
        |_rest: RestClient| {
            c.probes.set(c.probes.get() + 1);
            Err(RestError { status: 401, body: "expired".to_string() })
        },
        || {
            c.logins.set(c.logins.get() + 1);
            Ok("fresh-cred".to_string())
        },
    );
    assert!(r.is_ok());
    assert_eq!(c.exchanges.get(), 0);
    assert_eq!(c.probes.get(), 1);
    assert_eq!(c.logins.get(), 1);
    assert_eq!(client.get_auth_method(), Some(AuthMethod::Interactive));
    let h = client.get_auth_header(2, |_s| panic!("fresh token")).unwrap();
    assert_eq!(h, "Bearer fresh-cred");
}

#[test]
fn failing_probe_without_fallback_permission_propagates() {
    let mut client = WrappedAPIClient::new(versions());
    client.login(0, || Ok("cred".to_string())).unwrap();
    let c = Counters::new();
    let r = client.authenticate(
        1,
        None,
        None,
        false,
        |_i, _s| Ok("never".to_string()),
        |_s| Ok("cred".to_string()),
        |_rest: RestClient| Err(RestError { status: 403, body: "no".to_string() }),
        || {
            c.logins.set(c.logins.get() + 1);
            Ok("cred2".to_string())
        },
    );
    assert!(matches!(r, Err(ApiError::Rest { status: 403, .. })));
    assert_eq!(c.logins.get(), 0);
}

#[test]
fn missing_token_without_credentials_and_without_fallback() {
    let mut client = WrappedAPIClient::new(versions());
    let r = client.authenticate(
        0,
        None,
        None,
        false,
        |_i, _s| Ok("never".to_string()),
        |_s| Ok("never".to_string()),
        |_rest: RestClient| Ok(()),
        || Ok("never".to_string()),
    );
    assert!(matches!(r, Err(ApiError::Auth(AuthError::MissingToken))));
}

#[test]
fn successful_probe_without_credentials_confirms_the_identity() {
    // the pre-existing identity is confirmed; no exchange, no login,
    // whatever the fallback flag says
    for interactive in [false, true] {
        let mut client = WrappedAPIClient::new(versions());
        client.login(0, || Ok("cred".to_string())).unwrap();
        let c = Counters::new();
        let r = client.authenticate(
            1,
            None,
            None,
            interactive,
            |_i, _s| {
                c.exchanges.set(c.exchanges.get() + 1);
                Ok("never".to_string())
            },
            |_s| Ok("cred".to_string()),
            |rest: RestClient| {
                c.probes.set(c.probes.get() + 1);
                assert_eq!(rest.auth_header, "Bearer cred");
                Ok(())
            },
            || {
                c.logins.set(c.logins.get() + 1);
                Ok("never".to_string())
            },
        );
        assert!(r.is_ok());
        assert_eq!(c.exchanges.get(), 0);
        assert_eq!(c.probes.get(), 1);
        assert_eq!(c.logins.get(), 0);
        assert_eq!(client.get_auth_method(), Some(AuthMethod::Interactive));
    }
}
