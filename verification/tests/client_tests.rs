use cloud_client::api_client::{GrpcRequest, PythonVersion, RestClient, VersionInfo, WrappedAPIClient};
use cloud_client::auth::{AuthError, AuthMethod, AuthStrategy};
use cloud_client::error::{ApiError, GrpcStatus, RestError};
use std::cell::Cell;

fn versions() -> VersionInfo {
    VersionInfo {
        polars_version: "1.2.3".to_string(),
        python_version: PythonVersion { major: 3, minor: 12, patch: 1 },
    }
}

fn no_refresh(_s: AuthStrategy) -> Result<String, AuthError> {
    panic!("refresh exchange must not run in this test");
}

fn logged_in_client(now: u64) -> WrappedAPIClient {
    let mut client = WrappedAPIClient::new(versions());
    client.login(now, || Ok("cred".to_string())).unwrap();
    client
}

#[test]
fn call_without_token_fails_before_any_network_io() {
    let mut client = WrappedAPIClient::new(versions());
    let fetches = Cell::new(0u32);
    let r: Result<u32, ApiError> = client.call(0, |_s| Ok("x".to_string()), |_c: RestClient| {
        fetches.set(fetches.get() + 1);
        Ok(7)
    });
    match r {
        Err(ApiError::Auth(AuthError::MissingToken)) => {},
        other => panic!("expected missing-token error, got {:?}", other),
    }
    assert_eq!(fetches.get(), 0);
}

#[test]
fn call_runs_operation_against_freshly_rendered_header() {
    let mut client = logged_in_client(50);
    let seen = Cell::new(false);
    let r: Result<u32, ApiError> = client.call(51, no_refresh, |c: RestClient| {
        assert_eq!(c.auth_header, "Bearer cred");
        seen.set(true);
        Ok(9)
    });
    assert_eq!(r.unwrap(), 9);
    assert!(seen.get());
}

#[test]
fn call_observes_header_of_most_recent_refresh() {
    let mut client = logged_in_client(0);
    // first call renders the first credential
    let r: Result<(), ApiError> = client.call(1, no_refresh, |c: RestClient| {
        assert_eq!(c.auth_header, "Bearer cred");
        Ok(())
    });
    r.unwrap();
    // far in the future the token is stale; the exchange re-derives it and
    // the operation must observe the new header, never the stale one
    let far = 10_000_000;
    let r: Result<(), ApiError> = client.call(
        far,
        |_s| Ok("cred-2".to_string()),
        |c: RestClient| {
            assert_eq!(c.auth_header, "Bearer cred-2");
            Ok(())
        },
    );
    r.unwrap();
}

#[test]
fn call_tags_rest_failures_with_auth_method() {
    let mut client = logged_in_client(10);
    let r: Result<(), ApiError> = client.call(11, no_refresh, |_c: RestClient| {
        Err(RestError { status: 500, body: "boom".to_string() })
    });
    match r {
        Err(ApiError::Rest { status, body, auth_method }) => {
            assert_eq!(status, 500);
            assert_eq!(body, "boom");
            assert_eq!(auth_method, Some(AuthMethod::Interactive));
        },
        other => panic!("expected rest error, got {:?}", other),
    }
}

#[test]
fn call_grpc_injects_authorization_metadata() {
    let mut client = logged_in_client(7);
    let r: Result<u8, ApiError> = client.call_grpc(
        8,
        no_refresh,
        |_g, q: GrpcRequest<&str>| {
            assert_eq!(q.authorization.as_deref(), Some("Bearer cred"));
            assert_eq!(q.message, "payload");
            Ok(3)
        },
        GrpcRequest { authorization: None, message: "payload" },
    );
    assert_eq!(r.unwrap(), 3);
}

#[test]
fn call_grpc_maps_status_failures_without_auth_tag() {
    let mut client = logged_in_client(7);
    let r: Result<u8, ApiError> = client.call_grpc(
        8,
        no_refresh,
        |_g, _q: GrpcRequest<()>| Err(GrpcStatus { code: 14, message: "unavailable".to_string() }),
        GrpcRequest { authorization: None, message: () },
    );
    match r {
        Err(ApiError::Grpc { code, message }) => {
            assert_eq!(code, 14);
            assert_eq!(message, "unavailable");
        },
        other => panic!("expected grpc error, got {:?}", other),
    }
}

#[test]
fn clear_authentication_returns_to_no_token() {
    let mut client = logged_in_client(0);
    assert_eq!(client.get_auth_method(), Some(AuthMethod::Interactive));
    client.clear_authentication();
    assert_eq!(client.get_auth_method(), None);
    let r: Result<(), ApiError> = client.call(1, |_s| Ok("x".to_string()), |_c: RestClient| Ok(()));
    assert!(matches!(r, Err(ApiError::Auth(AuthError::MissingToken))));
}

#[test]
fn get_auth_header_returns_rendered_header() {
    let mut client = logged_in_client(0);
    let h = client.get_auth_header(1, no_refresh).unwrap();
    assert_eq!(h, "Bearer cred");
}

#[test]
fn get_auth_header_without_token_is_missing_token() {
    let mut client = WrappedAPIClient::new(versions());
    let r = client.get_auth_header(1, |_s| Ok("x".to_string()));
    assert!(matches!(r, Err(ApiError::Auth(AuthError::MissingToken))));
}

#[test]
fn cancelled_login_reports_login_failed() {
    let mut client = WrappedAPIClient::new(versions());
    let r = client.login(0, || Err(AuthError::LoginFailed));
    assert!(matches!(r, Err(ApiError::Auth(AuthError::LoginFailed))));
    assert_eq!(client.get_auth_method(), None);
}

#[test]
fn revoked_credential_surfaces_refresh_failed() {
    let mut client = logged_in_client(0);
    let far = 10_000_000;
    let r: Result<(), ApiError> = client.call(
        far,
        |_s| Err(AuthError::InvalidCredentials),
        |_c: RestClient| Ok(()),
    );
    assert!(matches!(r, Err(ApiError::Auth(AuthError::RefreshFailed))));
    // the session keeps its token; a later refresh may still succeed
    assert_eq!(client.get_auth_method(), Some(AuthMethod::Interactive));
}
