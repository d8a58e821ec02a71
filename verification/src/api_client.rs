//! The authenticated dual-protocol call dispatcher.
//!
//! A session owns one REST client handle, one gRPC client handle, and zero or
//! one auth token. Every call shape funnels through a shared "ensure fresh
//! auth" step: if a token exists it is refreshed and the rendered
//! authorization header is written into the REST handle before the operation
//! runs; if none exists the call fails with a missing-token error before any
//! operation is attempted.
//!
//! The transports themselves are external collaborators: each call shape
//! takes the operation as a function value, so everything the dispatcher
//! decides — token state, header freshness, error normalization, pagination —
//! is stated in the contracts below, for every behavior of the collaborator.

use vstd::prelude::*;
use crate::auth::{AuthError, AuthMethod, AuthStrategy, AuthToken};
use crate::error::{ApiError, GrpcStatus, RestError};

verus! {

/// The REST client handle: it carries the mutable authorization header that
/// the ensure-auth step rewrites and the operation then observes.
#[derive(Debug)]
pub struct RestClient {
    pub auth_header: String,
}

impl RestClient {
    /// An equal copy, handed to one operation.
    pub fn snapshot(&self) -> (r: RestClient)
        ensures
            r == *self,
    {
        RestClient { auth_header: self.auth_header.clone() }
    }
}

/// The gRPC client handle, cheaply copied for each call.
#[derive(Clone, Copy, Debug, PartialEq, Eq, Structural)]
pub struct GrpcClient {
    pub channel_id: u64,
}

/// An outbound gRPC request: the payload plus the one metadata entry the
/// dispatcher manages, the `authorization` value.
#[derive(Debug)]
pub struct GrpcRequest<U> {
    pub authorization: Option<String>,
    pub message: U,
}

/// Some request carrying the given authorization header and payload was
/// dispatched through `f` with outcome `out`.
pub open spec fn grpc_dispatched<T, U, F: FnOnce(GrpcClient, GrpcRequest<U>) -> Result<
    T,
    GrpcStatus,
>>(f: F, grpc: GrpcClient, header: Seq<char>, message: U, out: Result<T, GrpcStatus>) -> bool {
    exists|q: GrpcRequest<U>|
        {
            &&& q.message == message
            &&& (q.authorization matches Some(h) && h@ == header)
            &&& #[trigger] f.ensures((grpc, q), out)
        }
}

/// The items of a fetch history, concatenated in page order.
pub open spec fn spec_pages_items<T>(pages: Seq<Paginated<T>>) -> Seq<T> {
    pages.flat_map(|p: Paginated<T>| p.result@)
}

/// `pages` is a complete fetch history of `f` against the handle `rest`:
/// pages were fetched consecutively from 1, each is an outcome of `f`, every
/// page before the last was followed because its number was below the
/// reported total, and the run ended either because the reported total was
/// reached or because the `MAX_PAGES` safety bound was.
pub open spec fn spec_page_run<T, F: Fn(RestClient, u64) -> Result<Paginated<T>, RestError>>(
    f: F,
    rest: RestClient,
    pages: Seq<Paginated<T>>,
) -> bool {
    &&& 1 <= pages.len() <= MAX_PAGES
    &&& forall|i: int|
        0 <= i < pages.len() ==> #[trigger] f.ensures((rest, (i + 1) as u64), Ok(pages[i]))
    &&& forall|i: int|
        0 <= i < pages.len() - 1 ==> (i + 1) < #[trigger] pages[i].pagination.total_pages
    &&& pages.len() < MAX_PAGES ==> pages.last().pagination.total_pages <= pages.len()
}

/// Some page fetch within the safety bound failed with the given REST error.
pub open spec fn spec_page_failed<T, F: Fn(RestClient, u64) -> Result<Paginated<T>, RestError>>(
    f: F,
    rest: RestClient,
    status: u16,
    body: String,
) -> bool {
    exists|p: u64|
        1 <= p <= MAX_PAGES && #[trigger] f.ensures((rest, p), Err(RestError { status, body }))
}

/// Pagination metadata returned with one page.
#[derive(Clone, Copy, Debug, PartialEq, Eq, Structural)]
pub struct PageInfo {
    pub current_page: u64,
    pub total_pages: u64,
}

/// One page of a paginated REST response.
#[derive(Debug)]
pub struct Paginated<T> {
    pub result: Vec<T>,
    pub pagination: PageInfo,
}

/// Safety bound on aggregation: no more than this many pages are ever
/// fetched, however many the server reports, so a misbehaving or malicious
/// peer cannot drive an unbounded loop.
pub const MAX_PAGES: u64 = 9;

/// Version identifiers resolved before the session is constructed and
/// consumed when building certain request payloads.
#[derive(Clone, Copy, Debug, PartialEq, Eq, Structural)]
pub struct PythonVersion {
    pub major: u32,
    pub minor: u32,
    pub patch: u32,
}

#[derive(Debug)]
pub struct VersionInfo {
    pub polars_version: String,
    pub python_version: PythonVersion,
}

/// The session object: one REST handle, one gRPC handle, zero or one auth
/// token, and the version configuration fixed at construction.
#[derive(Debug)]
pub struct WrappedAPIClient {
    pub rest: RestClient,
    pub grpc: GrpcClient,
    pub auth_token: Option<AuthToken>,
    pub versions: VersionInfo,
}

impl WrappedAPIClient {
    /// The auth method active for diagnostics, `None` when unauthenticated.
    pub open spec fn spec_auth_method(&self) -> Option<AuthMethod> {
        match self.auth_token {
            Some(t) => Some(t.spec_method()),
            None => None,
        }
    }

    /// A fresh session: no token yet.
    pub fn new(versions: VersionInfo) -> (client: Self)
        ensures
            client.auth_token is None,
            client.versions == versions,
    {
        WrappedAPIClient {
            rest: RestClient { auth_header: String::new() },
            grpc: GrpcClient { channel_id: 0 },
            auth_token: None,
            versions,
        }
    }

    /// The tag of the current token, without side effects.
    pub fn get_auth_method(&self) -> (m: Option<AuthMethod>)
        ensures
            m == self.spec_auth_method(),
    {
        match &self.auth_token {
            Some(t) => Some(t.method()),
            None => None,
        }
    }

    /// Return to the unauthenticated state.
    pub fn clear_authentication(&mut self)
        ensures
            final(self).auth_token is None,
            final(self).rest == old(self).rest,
            final(self).grpc == old(self).grpc,
            final(self).versions == old(self).versions,
    {
        self.auth_token = None
    }

    /// The shared precondition of every call shape: refresh an existing
    /// token (a no-op while it is fresh) and write the rendered header into
    /// the REST handle; fail with `MissingToken` when no token exists, before
    /// anything else happens.
    pub fn set_or_refresh_auth<E>(&mut self, now: u64, exchange: E) -> (r: Result<(), AuthError>)
        where E: FnOnce(AuthStrategy) -> Result<String, AuthError>,
        requires
            forall|s: AuthStrategy| exchange.requires((s,)),
        ensures
            old(self).auth_token is None ==> r == Err::<(), AuthError>(AuthError::MissingToken)
                && *final(self) == *old(self),
            r matches Err(e) ==> *final(self) == *old(self) && (e == AuthError::MissingToken
                || e == AuthError::RefreshFailed),
            r == Err::<(), AuthError>(AuthError::MissingToken) ==> old(self).auth_token is None,
            r is Ok ==> (final(self).auth_token matches Some(t)
                && t.spec_strategy() == old(self).auth_token.unwrap().spec_strategy()
                && final(self).rest.auth_header@ == t.spec_header()),
            old(self).auth_token matches Some(t) && t.spec_is_fresh(now) ==> r
                == Ok::<(), AuthError>(()) && final(self).auth_token == old(self).auth_token,
            r == Err::<(), AuthError>(AuthError::RefreshFailed) ==> (old(
                self,
            ).auth_token matches Some(t) && exists|e0: AuthError|
                #[trigger] exchange.ensures((t.spec_strategy(),), Err(e0))),
            final(self).grpc == old(self).grpc,
            final(self).versions == old(self).versions,
            final(self).spec_auth_method() == old(self).spec_auth_method(),
    {
        match &mut self.auth_token {
            Some(token) => {
                match token.refresh(now, exchange) {
                    Ok(()) => {},
                    Err(e) => {
                        return Err(e);
                    },
                }
            },
            None => {
                return Err(AuthError::MissingToken);
            },
        }
        let header = match &self.auth_token {
            Some(token) => token.to_auth_header(),
            None => {
                return Err(AuthError::MissingToken);
            },
        };
        self.rest.auth_header = header;
        Ok(())
    }

    /// Execute one REST operation with a guaranteed-fresh credential.
    ///
    /// With no token the call fails with a missing-token error and the
    /// operation is never run. Otherwise the token is refreshed, the header
    /// on the REST handle is the one rendered from the refreshed token, and
    /// the operation observes exactly that handle; a transport failure is
    /// normalized and tagged with the active auth method.
    pub fn call<T, E, F>(&mut self, now: u64, exchange: E, f: F) -> (r: Result<T, ApiError>)
        where
            E: FnOnce(AuthStrategy) -> Result<String, AuthError>,
            F: FnOnce(RestClient) -> Result<T, RestError>,
        requires
            forall|s: AuthStrategy| exchange.requires((s,)),
            forall|c: RestClient| f.requires((c,)),
        ensures
            old(self).auth_token is None ==> r == Err::<T, ApiError>(ApiError::Auth(
                AuthError::MissingToken,
            )) && *final(self) == *old(self),
            r matches Err(ApiError::Auth(e)) ==> *final(self) == *old(self) && (e
                == AuthError::MissingToken || e == AuthError::RefreshFailed),
            r matches Err(ApiError::Auth(e)) && e == AuthError::MissingToken ==> old(
                self,
            ).auth_token is None,
            !(r matches Err(ApiError::Auth(_))) ==> (final(self).auth_token matches Some(t)
                && t.spec_strategy() == old(self).auth_token.unwrap().spec_strategy()
                && final(self).rest.auth_header@ == t.spec_header()),
            r matches Ok(v) ==> f.ensures((final(self).rest,), Ok(v)),
            r matches Err(ApiError::Rest { status, body, auth_method }) ==> f.ensures(
                (final(self).rest,),
                Err(RestError { status, body }),
            ) && auth_method == final(self).spec_auth_method(),
            !(r matches Err(ApiError::Grpc { .. })) && !(r matches Err(ApiError::Usage { .. })),
            old(self).auth_token matches Some(t) && t.spec_is_fresh(now) ==> !(r matches Err(
                ApiError::Auth(_),
            )) && final(self).auth_token == old(self).auth_token,
            r matches Err(ApiError::Auth(e)) && e == AuthError::RefreshFailed ==> (old(
                self,
            ).auth_token matches Some(t) && exists|e0: AuthError|
                #[trigger] exchange.ensures((t.spec_strategy(),), Err(e0))),
            final(self).grpc == old(self).grpc,
            final(self).versions == old(self).versions,
            final(self).spec_auth_method() == old(self).spec_auth_method(),
    {
        match self.set_or_refresh_auth(now, exchange) {
            Ok(()) => {},
            Err(e) => {
                return Err(ApiError::Auth(e));
            },
        }
        match f(self.rest.snapshot()) {
            Ok(v) => Ok(v),
            Err(e) => Err(ApiError::from_with_auth_method(e, self.get_auth_method())),
        }
    }

    /// Execute one gRPC operation with a guaranteed-fresh credential: after
    /// the shared ensure-auth step, the rendered authorization value is
    /// injected into the outbound request's metadata, and only then is the
    /// request dispatched. gRPC status failures are normalized without an
    /// auth-method tag.
    pub fn call_grpc<T, U, E, F>(
        &mut self,
        now: u64,
        exchange: E,
        f: F,
        request: GrpcRequest<U>,
    ) -> (r: Result<T, ApiError>)
        where
            E: FnOnce(AuthStrategy) -> Result<String, AuthError>,
            F: FnOnce(GrpcClient, GrpcRequest<U>) -> Result<T, GrpcStatus>,
        requires
            forall|s: AuthStrategy| exchange.requires((s,)),
            forall|g: GrpcClient, q: GrpcRequest<U>| f.requires((g, q)),
        ensures
            old(self).auth_token is None ==> r == Err::<T, ApiError>(ApiError::Auth(
                AuthError::MissingToken,
            )) && *final(self) == *old(self),
            r matches Err(ApiError::Auth(e)) ==> *final(self) == *old(self) && (e
                == AuthError::MissingToken || e == AuthError::RefreshFailed),
            r matches Err(ApiError::Auth(e)) && e == AuthError::MissingToken ==> old(
                self,
            ).auth_token is None,
            !(r matches Err(ApiError::Auth(_))) ==> (final(self).auth_token matches Some(t)
                && t.spec_strategy() == old(self).auth_token.unwrap().spec_strategy()
                && final(self).rest.auth_header@ == t.spec_header()),
            r matches Ok(v) ==> grpc_dispatched(
                f,
                final(self).grpc,
                final(self).auth_token.unwrap().spec_header(),
                request.message,
                Ok(v),
            ),
            r matches Err(ApiError::Grpc { code, message }) ==> grpc_dispatched(
                f,
                final(self).grpc,
                final(self).auth_token.unwrap().spec_header(),
                request.message,
                Err(GrpcStatus { code, message }),
            ),
            !(r matches Err(ApiError::Rest { .. })) && !(r matches Err(ApiError::Usage { .. })),
            old(self).auth_token matches Some(t) && t.spec_is_fresh(now) ==> !(r matches Err(
                ApiError::Auth(_),
            )) && final(self).auth_token == old(self).auth_token,
            r matches Err(ApiError::Auth(e)) && e == AuthError::RefreshFailed ==> (old(
                self,
            ).auth_token matches Some(t) && exists|e0: AuthError|
                #[trigger] exchange.ensures((t.spec_strategy(),), Err(e0))),
            final(self).grpc == old(self).grpc,
            final(self).versions == old(self).versions,
            final(self).spec_auth_method() == old(self).spec_auth_method(),
    {
        match self.set_or_refresh_auth(now, exchange) {
            Ok(()) => {},
            Err(e) => {
                return Err(ApiError::Auth(e));
            },
        }
        let authorized = GrpcRequest {
            authorization: Some(self.rest.auth_header.clone()),
            message: request.message,
        };
        let ghost sent = authorized;
        let out = f(self.grpc, authorized);
        proof {
            assert(sent.authorization matches Some(h) && h@
                == self.auth_token.unwrap().spec_header());
        }
        match out {
            Ok(v) => {
                proof {
                    assert(f.ensures((self.grpc, sent), Ok(v)));
                    assert(grpc_dispatched(
                        f,
                        self.grpc,
                        self.auth_token.unwrap().spec_header(),
                        request.message,
                        Ok(v),
                    ));
                }
                Ok(v)
            },
            Err(e) => {
                proof {
                    assert(f.ensures(
                        (self.grpc, sent),
                        Err(GrpcStatus { code: e.code, message: e.message }),
                    ));
                    assert(grpc_dispatched(
                        f,
                        self.grpc,
                        self.auth_token.unwrap().spec_header(),
                        request.message,
                        Err(GrpcStatus { code: e.code, message: e.message }),
                    ));
                }
                Err(ApiError::from_grpc(e))
            },
        }
    }

    /// Aggregate a paginated REST operation into a single result.
    ///
    /// Auth is ensured once; the page fetcher is then invoked with page
    /// numbers increasing from 1, each page's items appended in order, until
    /// a page reports that the current page reached the reported total — or
    /// until the `MAX_PAGES` safety bound, after which whatever accumulated
    /// is returned. A page fetch failure is normalized exactly as in `call`.
    pub fn call_paginated<T, E, F>(&mut self, now: u64, exchange: E, f: F) -> (r: Result<
        Vec<T>,
        ApiError,
    >)
        where
            E: FnOnce(AuthStrategy) -> Result<String, AuthError>,
            F: Fn(RestClient, u64) -> Result<Paginated<T>, RestError>,
        requires
            forall|s: AuthStrategy| exchange.requires((s,)),
            forall|c: RestClient, p: u64| f.requires((c, p)),
        ensures
            old(self).auth_token is None ==> r == Err::<Vec<T>, ApiError>(ApiError::Auth(
                AuthError::MissingToken,
            )) && *final(self) == *old(self),
            r matches Err(ApiError::Auth(e)) ==> *final(self) == *old(self) && (e
                == AuthError::MissingToken || e == AuthError::RefreshFailed),
            r matches Err(ApiError::Auth(e)) && e == AuthError::MissingToken ==> old(
                self,
            ).auth_token is None,
            !(r matches Err(ApiError::Auth(_))) ==> (final(self).auth_token matches Some(t)
                && t.spec_strategy() == old(self).auth_token.unwrap().spec_strategy()
                && final(self).rest.auth_header@ == t.spec_header()),
            r matches Ok(items) ==> exists|pages: Seq<Paginated<T>>|
                #[trigger] spec_page_run(f, final(self).rest, pages) && items@
                    == spec_pages_items(pages),
            r matches Err(ApiError::Rest { status, body, auth_method }) ==> spec_page_failed(
                f,
                final(self).rest,
                status,
                body,
            ) && auth_method == final(self).spec_auth_method(),
            !(r matches Err(ApiError::Grpc { .. })) && !(r matches Err(ApiError::Usage { .. })),
            old(self).auth_token matches Some(t) && t.spec_is_fresh(now) ==> !(r matches Err(
                ApiError::Auth(_),
            )) && final(self).auth_token == old(self).auth_token,
            r matches Err(ApiError::Auth(e)) && e == AuthError::RefreshFailed ==> (old(
                self,
            ).auth_token matches Some(t) && exists|e0: AuthError|
                #[trigger] exchange.ensures((t.spec_strategy(),), Err(e0))),
            final(self).grpc == old(self).grpc,
            final(self).versions == old(self).versions,
            final(self).spec_auth_method() == old(self).spec_auth_method(),
    {
        match self.set_or_refresh_auth(now, exchange) {
            Ok(()) => {},
            Err(e) => {
                return Err(ApiError::Auth(e));
            },
        }
        let ghost s0 = *self;
        let mut results: Vec<T> = Vec::new();
        let ghost mut pages: Seq<Paginated<T>> = Seq::empty();
        let mut page: u64 = 1;
        loop
            invariant_except_break
                *self == s0,
                old(self).auth_token is Some,
                old(self).auth_token matches Some(t) && t.spec_is_fresh(now) ==> s0.auth_token
                    == old(self).auth_token,
                s0.auth_token matches Some(t) && t.spec_strategy() == old(
                    self,
                ).auth_token.unwrap().spec_strategy() && s0.rest.auth_header@ == t.spec_header(),
                s0.grpc == old(self).grpc,
                s0.versions == old(self).versions,
                s0.spec_auth_method() == old(self).spec_auth_method(),
                1 <= page <= MAX_PAGES,
                pages.len() == page - 1,
                forall|i: int|
                    0 <= i < pages.len() ==> #[trigger] f.ensures(
                        (s0.rest, (i + 1) as u64),
                        Ok(pages[i]),
                    ),
                forall|i: int|
                    0 <= i < pages.len() ==> (i + 1) < #[trigger] pages[i].pagination.total_pages,
                results@ == spec_pages_items(pages),
                forall|c: RestClient, p: u64| f.requires((c, p)),
            ensures
                *self == s0,
                spec_page_run(f, s0.rest, pages),
                results@ == spec_pages_items(pages),
            decreases MAX_PAGES - page,
        {
            let fetched = f(self.rest.snapshot(), page);
            match fetched {
                Ok(mut paginated) => {
                    let ghost snap = paginated;
                    let total = paginated.pagination.total_pages;
                    results.append(&mut paginated.result);
                    proof {
                        let items_of = |p: Paginated<T>| p.result@;
                        pages.lemma_flat_map_push(items_of, snap);
                        pages = pages.push(snap);
                    }
                    if page >= total {
                        break;
                    }
                    if page == MAX_PAGES {
                        break;
                    }
                    page = page + 1;
                },
                Err(e) => {
                    proof {
                        assert(f.ensures(
                            (s0.rest, page),
                            Err(RestError { status: e.status, body: e.body }),
                        ));
                        assert(spec_page_failed(f, s0.rest, e.status, e.body));
                    }
                    return Err(ApiError::from_with_auth_method(e, self.get_auth_method()));
                },
            }
        }
        Ok(results)
    }

    /// Drive the interactive login flow and install the resulting token,
    /// replacing any prior one atomically.
    pub fn login<L>(&mut self, now: u64, login_flow: L) -> (r: Result<(), ApiError>)
        where L: FnOnce() -> Result<String, AuthError>,
        requires
            login_flow.requires(()),
        ensures
            r matches Ok(()) ==> (final(self).auth_token matches Some(t)
                && t.spec_method() == AuthMethod::Interactive
                && login_flow.ensures((), Ok(t.credential))),
            r matches Err(e) ==> *final(self) == *old(self) && (e matches ApiError::Auth(a)
                && login_flow.ensures((), Err(a))),
            final(self).rest == old(self).rest,
            final(self).grpc == old(self).grpc,
            final(self).versions == old(self).versions,
    {
        match login_flow() {
            Ok(credential) => {
                let strategy = AuthStrategy::Interactive {
                    refresh_material: credential.clone(),
                };
                self.auth_token = Some(AuthToken::from_exchange(credential, now, strategy));
                Ok(())
            },
            Err(e) => Err(ApiError::Auth(e)),
        }
    }

    /// The authenticate-and-login convenience flow.
    ///
    /// Supplying exactly one of client id and client secret is a usage error,
    /// reported before any collaborator runs. With both supplied, they are
    /// exchanged for a token unconditionally, replacing any existing one;
    /// then a lightweight authenticated probe checks the resulting (or
    /// pre-existing) identity. A failing probe falls back to exactly one
    /// interactive login attempt only when no explicit credentials were
    /// supplied and `interactive` permits it; otherwise the probe's failure
    /// propagates.
    pub fn authenticate<X, E, P, L>(
        &mut self,
        now: u64,
        client_id: Option<String>,
        client_secret: Option<String>,
        interactive: bool,
        sa_exchange: X,
        refresh_exchange: E,
        probe: P,
        login_flow: L,
    ) -> (r: Result<(), ApiError>)
        where
            X: FnOnce(String, String) -> Result<String, AuthError>,
            E: FnOnce(AuthStrategy) -> Result<String, AuthError>,
            P: FnOnce(RestClient) -> Result<(), RestError>,
            L: FnOnce() -> Result<String, AuthError>,
        requires
            forall|i: String, s: String| sa_exchange.requires((i, s)),
            forall|s: AuthStrategy| refresh_exchange.requires((s,)),
            forall|c: RestClient| probe.requires((c,)),
            login_flow.requires(()),
        ensures
            // one of the pair alone is a caller mistake, reported before
            // any collaborator runs
            (client_id is Some) != (client_secret is Some) ==> (r matches Err(
                ApiError::Usage { .. },
            ) && *final(self) == *old(self)),
            // explicit credentials: a rejected exchange propagates untouched
            client_id is Some && client_secret is Some ==> (r matches Err(ApiError::Auth(e))
                ==> *final(self) == *old(self) && sa_exchange.ensures(
                (client_id.unwrap(), client_secret.unwrap()),
                Err(e),
            )),
            // explicit credentials, successful flow: the installed token came
            // from the exchange, the header is rendered from it, and the
            // probe accepted the freshly-authorized handle
            client_id is Some && client_secret is Some && r is Ok
                ==> (final(self).auth_token matches Some(t)
                && t.spec_method() == AuthMethod::ServiceAccount
                && sa_exchange.ensures(
                (client_id.unwrap(), client_secret.unwrap()),
                Ok(t.credential),
            ) && final(self).rest.auth_header@ == t.spec_header() && probe.ensures(
                (final(self).rest,),
                Ok(()),
            )),
            // explicit credentials: a failing probe propagates — the token
            // stays the service-account one, no interactive fallback
            client_id is Some && client_secret is Some ==> (r matches Err(
                ApiError::Rest { status, body, auth_method },
            ) ==> (final(self).auth_token matches Some(t) && t.spec_method()
                == AuthMethod::ServiceAccount && probe.ensures(
                (final(self).rest,),
                Err(RestError { status, body }),
            ) && auth_method == Some(AuthMethod::ServiceAccount))),
            // without credentials, a failing probe's REST error is the flow's
            // error, tagged with the active auth method
            client_id is None && client_secret is None ==> (r matches Err(
                ApiError::Rest { status, body, auth_method },
            ) ==> probe.ensures((final(self).rest,), Err(RestError { status, body }))
                && auth_method == final(self).spec_auth_method()),
            // without credentials and without fallback the probe's outcome is
            // the flow's outcome: when auth holds and the probe accepts, the
            // flow succeeds, and every failure is tied to its cause
            client_id is None && client_secret is None && !interactive ==> {
                &&& old(self).auth_token is None ==> r == Err::<(), ApiError>(ApiError::Auth(
                    AuthError::MissingToken,
                )) && *final(self) == *old(self)
                &&& r is Ok ==> probe.ensures((final(self).rest,), Ok(()))
                &&& (r matches Err(ApiError::Auth(e)) ==> *final(self) == *old(self) && (e
                    == AuthError::MissingToken || e == AuthError::RefreshFailed))
                &&& (r matches Err(ApiError::Auth(e)) && e == AuthError::MissingToken ==> old(
                    self,
                ).auth_token is None)
                &&& (r matches Err(ApiError::Auth(e)) && e == AuthError::RefreshFailed ==> (old(
                    self,
                ).auth_token matches Some(t) && exists|e0: AuthError|
                    #[trigger] refresh_exchange.ensures((t.spec_strategy(),), Err(e0))))
                &&& final(self).spec_auth_method() == old(self).spec_auth_method()
            },
            // absent explicit credentials, with fallback permitted, a failing
            // probe triggers exactly one interactive login attempt, whose
            // outcome is the flow's outcome
            r matches Err(ApiError::Usage { .. }) ==> (client_id is Some) != (
            client_secret is Some),
            !(r matches Err(ApiError::Grpc { .. })),
            client_id is None && client_secret is None && interactive ==> {
                &&& r is Ok ==> (probe.ensures((final(self).rest,), Ok(()))
                    || (final(self).auth_token matches Some(t)
                    && t.spec_method() == AuthMethod::Interactive
                    && login_flow.ensures((), Ok(t.credential))))
                &&& r matches Err(e) ==> (e matches ApiError::Auth(a) && login_flow.ensures(
                    (),
                    Err(a),
                ))
            },
            final(self).grpc == old(self).grpc,
            final(self).versions == old(self).versions,
    {
        let explicit = client_id.is_some();
        match (client_id, client_secret) {
            (Some(id), Some(secret)) => {
                match sa_exchange(id.clone(), secret.clone()) {
                    Ok(credential) => {
                        let strategy = AuthStrategy::ServiceAccount {
                            client_id: id,
                            client_secret: secret,
                        };
                        self.auth_token = Some(AuthToken::from_exchange(credential, now, strategy));
                    },
                    Err(e) => {
                        return Err(ApiError::Auth(e));
                    },
                }
            },
            (Some(_), None) | (None, Some(_)) => {
                return Err(ApiError::Usage {
                    message: "Client Id and Secret must either both be set or none at all."
                        .to_owned(),
                });
            },
            (None, None) => {},
        }
        match self.call(now, refresh_exchange, probe) {
            Ok(()) => Ok(()),
            Err(e) => {
                if !interactive || explicit {
                    Err(e)
                } else {
                    self.login(now, login_flow)
                }
            },
        }
    }

    /// The authorization header a freshly-authenticated operation would
    /// observe: ensure auth, then read the handle's header.
    pub fn get_auth_header<E>(&mut self, now: u64, exchange: E) -> (r: Result<String, ApiError>)
        where E: FnOnce(AuthStrategy) -> Result<String, AuthError>,
        requires
            forall|s: AuthStrategy| exchange.requires((s,)),
        ensures
            old(self).auth_token is None ==> r == Err::<String, ApiError>(ApiError::Auth(
                AuthError::MissingToken,
            )) && *final(self) == *old(self),
            r matches Ok(h) ==> (final(self).auth_token matches Some(t) && h@ == t.spec_header()
                && final(self).rest.auth_header@ == t.spec_header() && t.spec_strategy() == old(
                self,
            ).auth_token.unwrap().spec_strategy()),
            old(self).auth_token matches Some(t) && t.spec_is_fresh(now) ==> r is Ok
                && final(self).auth_token == old(self).auth_token,
            r matches Err(e) ==> *final(self) == *old(self) && (e == ApiError::Auth(
                AuthError::MissingToken,
            ) || e == ApiError::Auth(AuthError::RefreshFailed)),
            r == Err::<String, ApiError>(ApiError::Auth(AuthError::MissingToken)) ==> old(
                self,
            ).auth_token is None,
            r == Err::<String, ApiError>(ApiError::Auth(AuthError::RefreshFailed)) ==> (old(
                self,
            ).auth_token matches Some(t) && exists|e0: AuthError|
                #[trigger] exchange.ensures((t.spec_strategy(),), Err(e0))),
            final(self).grpc == old(self).grpc,
            final(self).versions == old(self).versions,
            final(self).spec_auth_method() == old(self).spec_auth_method(),
    {
        match self.set_or_refresh_auth(now, exchange) {
            Ok(()) => Ok(self.rest.auth_header.clone()),
            Err(e) => Err(ApiError::Auth(e)),
        }
    }
}

} // verus!
