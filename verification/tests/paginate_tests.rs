use cloud_client::api_client::{
    PageInfo, Paginated, PythonVersion, RestClient, VersionInfo, WrappedAPIClient, MAX_PAGES,
};
use cloud_client::auth::{AuthError, AuthMethod, AuthStrategy};
use cloud_client::error::{ApiError, RestError};
use std::cell::Cell;

fn versions() -> VersionInfo {
    VersionInfo {
        polars_version: "1.0.0".to_string(),
        python_version: PythonVersion { major: 3, minor: 12, patch: 0 },
    }
}

fn no_refresh(_s: AuthStrategy) -> Result<String, AuthError> {
    panic!("refresh exchange must not run in this test");
}

fn logged_in_client() -> WrappedAPIClient {
    let mut client = WrappedAPIClient::new(versions());
    client.login(0, || Ok("cred".to_string())).unwrap();
    client
}

#[test]
fn paginated_aggregates_three_pages_in_order_and_stops() {
    let mut client = logged_in_client();
    let fetches = Cell::new(0u64);
    let r = client.call_paginated(1, no_refresh, |_c: RestClient, page: u64| {
        fetches.set(fetches.get() + 1);
        let base = (page - 1) * 10;
        let items: Vec<u64> = (base..base + 10).collect();
        Ok(Paginated {
            result: items,
            pagination: PageInfo { current_page: page, total_pages: 3 },
        })
    });
    let items = r.unwrap();
    // exactly 30 items, in page-then-within-page order
    assert_eq!(items.len(), 30);
    let expected: Vec<u64> = (0..30).collect();
    assert_eq!(items, expected);
    // and the fetcher ran exactly three times
    assert_eq!(fetches.get(), 3);
}

#[test]
fn paginated_halts_at_safety_bound_on_runaway_total() {
    let mut client = logged_in_client();
    let fetches = Cell::new(0u64);
    let r = client.call_paginated(1, no_refresh, |_c: RestClient, page: u64| {
        fetches.set(fetches.get() + 1);
        Ok(Paginated {
            result: vec![page],
            pagination: PageInfo { current_page: page, total_pages: 1_000_000 },
        })
    });
    let items = r.unwrap();
    assert_eq!(fetches.get(), MAX_PAGES);
    let expected: Vec<u64> = (1..=MAX_PAGES).collect();
    assert_eq!(items, expected);
}

#[test]
fn paginated_single_page_stops_immediately() {
    let mut client = logged_in_client();
    let fetches = Cell::new(0u64);
    let r = client.call_paginated(1, no_refresh, |_c: RestClient, _page: u64| {
        fetches.set(fetches.get() + 1);
        Ok(Paginated {
            result: vec!["only".to_string()],
            pagination: PageInfo { current_page: 1, total_pages: 1 },
        })
    });
    assert_eq!(r.unwrap(), vec!["only".to_string()]);
    assert_eq!(fetches.get(), 1);
}

#[test]
fn paginated_page_failure_is_tagged_with_auth_method() {
    let mut client = logged_in_client();
    let r: Result<Vec<u64>, ApiError> = client.call_paginated(
        1,
        no_refresh,
        |_c: RestClient, page: u64| {
            if page == 2 {
                Err(RestError { status: 404, body: "gone".to_string() })
            } else {
                Ok(Paginated {
                    result: vec![page],
                    pagination: PageInfo { current_page: page, total_pages: 5 },
                })
            }
        },
    );
    match r {
        Err(ApiError::Rest { status, body, auth_method }) => {
            assert_eq!(status, 404);
            assert_eq!(body, "gone");
            assert_eq!(auth_method, Some(AuthMethod::Interactive));
        },
        other => panic!("expected rest error, got {:?}", other),
    }
}

#[test]
fn paginated_without_token_fetches_nothing() {
    let mut client = WrappedAPIClient::new(versions());
    let fetches = Cell::new(0u64);
    let r: Result<Vec<u64>, ApiError> = client.call_paginated(
        0,
        |_s| Ok("x".to_string()),
        |_c: RestClient, _page: u64| {
            fetches.set(fetches.get() + 1);
            Ok(Paginated {
                result: vec![],
                pagination: PageInfo { current_page: 1, total_pages: 1 },
            })
        },
    );
    assert!(matches!(r, Err(ApiError::Auth(AuthError::MissingToken))));
    assert_eq!(fetches.get(), 0);
}
