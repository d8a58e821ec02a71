//! Session layer of a cloud-service client.
//!
//! The crate holds an authenticated connection to a control-plane service
//! reachable over two transports (a REST-style API and a gRPC API) and
//! exposes a uniform, auto-authenticating call surface. Its pieces are:
//!
//! * [`auth`]: the token lifecycle — interactive login vs. service-account
//!   credentials, lazy refresh, and rendering of the authorization header;
//! * [`api_client`]: the call dispatcher that wraps every outbound call with
//!   a guaranteed-fresh credential, uniform error normalization, and
//!   multi-page aggregation, plus the authenticate-and-login flow;
//! * [`error`]: transport failures and the unifying client-facing error;
//! * [`wire`] and [`query_info`]: the versioned binary wire format for query
//!   results and the adapter between it and the domain model, tolerant of
//!   enum values a peer added after this build;
//! * [`compute`], [`query_settings`], [`summary`]: validation and payload
//!   marshalling around compute clusters, query settings, and the flat
//!   records handed to the embedding caller.
//!
//! The transports themselves, the credential-exchange service, and the
//! interactive login flow are external collaborators: every function that
//! needs one takes it as a function value and states its own behavior for
//! every behavior of the collaborator.

pub mod api_client;
pub mod auth;
pub mod compute;
pub mod error;
pub mod query_info;
pub mod query_settings;
pub mod summary;
pub mod wire;
