//! Compute-cluster request marshalling: instance-sizing validation and the
//! building of register/start payloads, all checked before anything is sent.

use vstd::prelude::*;
use crate::api_client::{
    spec_pages_items, Paginated, RestClient, VersionInfo, WrappedAPIClient, MAX_PAGES,
};
use crate::auth::{AuthError, AuthStrategy};
use crate::error::{ApiError, RestError};

verus! {

/// One page request of a cluster listing: the page number and the fixed page
/// size. The offset is part of the request shape for compatibility and is
/// overridden downstream by the page and limit.
#[derive(Clone, Copy, Debug, PartialEq, Eq, Structural)]
pub struct Pagination {
    pub page: u64,
    pub limit: u64,
    pub offset: u64,
}

/// The page request sent for page number `page`.
pub open spec fn spec_page_request(page: u64) -> Pagination {
    Pagination { page, limit: 1000, offset: 0 }
}

/// `pages` is a complete fetch history of the page-request operation `f`:
/// requests were built for consecutive pages from 1, each answered by `f`,
/// each page before the last followed because its number was below the
/// reported total, and the run ended at the reported total or at the
/// `MAX_PAGES` safety bound.
pub open spec fn spec_request_page_run<T, F: Fn(RestClient, Pagination) -> Result<
    Paginated<T>,
    RestError,
>>(f: F, rest: RestClient, pages: Seq<Paginated<T>>) -> bool {
    &&& 1 <= pages.len() <= MAX_PAGES
    &&& forall|i: int|
        0 <= i < pages.len() ==> #[trigger] f.ensures(
            (rest, spec_page_request((i + 1) as u64)),
            Ok(pages[i]),
        )
    &&& forall|i: int|
        0 <= i < pages.len() - 1 ==> (i + 1) < #[trigger] pages[i].pagination.total_pages
    &&& pages.len() < MAX_PAGES ==> pages.last().pagination.total_pages <= pages.len()
}

/// Some page request within the safety bound was answered by `f` with the
/// given REST error.
pub open spec fn spec_request_page_failed<T, F: Fn(RestClient, Pagination) -> Result<
    Paginated<T>,
    RestError,
>>(f: F, rest: RestClient, status: u16, body: String) -> bool {
    exists|p: u64|
        1 <= p <= MAX_PAGES && #[trigger] f.ensures(
            (rest, spec_page_request(p)),
            Err(RestError { status, body }),
        )
}

/// The requested connection mode of a cluster.
#[derive(Clone, Copy, Debug, PartialEq, Eq, Structural)]
pub enum DBClusterModeSchema {
    Direct,
    Proxy,
}

/// The mode as sent to the control plane; direct mode carries the client's
/// public key, filled in downstream.
#[derive(Debug)]
pub enum ClusterModeSchema {
    Direct { client_public_key: String },
    Proxy,
}

/// The sizing of a cluster: a named instance type, or explicit cpu and
/// memory requirements.
#[derive(Debug)]
pub enum InstanceSpecsSchema {
    InstanceType { standard: String, big: Option<String> },
    Specs { cpus: u32, ram_gb: u32, multiplier: Option<u32> },
}

/// The payload registering a reusable compute-cluster manifest. The log
/// level passes through unread.
#[derive(Debug)]
pub struct RegisterComputeClusterArgs<L> {
    pub name: String,
    pub instance: InstanceSpecsSchema,
    pub storage: Option<u32>,
    pub big_instance_storage: Option<u32>,
    pub cluster_size: u32,
    pub mode: ClusterModeSchema,
    pub labels: Option<Vec<String>>,
    pub log_level: L,
    pub requirements_txt: Option<String>,
    pub python_version: crate::api_client::PythonVersion,
    pub polars_version: String,
    pub idle_timeout_mins: Option<u32>,
}

/// The payload starting an ad-hoc compute cluster.
#[derive(Debug)]
pub struct StartComputeClusterArgs<L> {
    pub instance: InstanceSpecsSchema,
    pub storage: Option<u32>,
    pub big_instance_storage: Option<u32>,
    pub cluster_size: u32,
    pub mode: ClusterModeSchema,
    pub labels: Option<Vec<String>>,
    pub log_level: Option<L>,
    pub requirements_txt: Option<String>,
    pub python_version: crate::api_client::PythonVersion,
    pub polars_version: String,
    pub idle_timeout_mins: Option<u32>,
}

/// The payload starting a cluster from a registered manifest.
#[derive(Debug)]
pub struct StartComputeClusterManifestArgs {
    pub name: String,
    pub python_version: crate::api_client::PythonVersion,
    pub polars_version: String,
}

/// Big-instance parameters demand a cluster of more than one machine.
pub open spec fn spec_big_instance_conflict(
    big_instance_type: Option<String>,
    big_instance_multiplier: Option<u32>,
    cluster_size: u32,
) -> bool {
    (big_instance_type is Some || big_instance_multiplier is Some) && cluster_size <= 1
}

/// Exactly one sizing shape is allowed: a named instance type, or cpus
/// together with memory.
pub open spec fn spec_sizing_valid(
    instance_type: Option<String>,
    cpus: Option<u32>,
    ram_gb: Option<u32>,
) -> bool {
    ||| (instance_type is Some && cpus is None && ram_gb is None)
    ||| (instance_type is None && cpus is Some && ram_gb is Some)
}

/// The built sizing reflects the inputs.
pub open spec fn spec_instance_matches(
    instance: InstanceSpecsSchema,
    instance_type: Option<String>,
    cpus: Option<u32>,
    ram_gb: Option<u32>,
    big_instance_type: Option<String>,
    big_instance_multiplier: Option<u32>,
) -> bool {
    match instance {
        InstanceSpecsSchema::InstanceType { standard, big } => {
            &&& instance_type == Some(standard)
            &&& big == big_instance_type
            &&& cpus is None
            &&& ram_gb is None
        },
        InstanceSpecsSchema::Specs { cpus: c, ram_gb: r, multiplier } => {
            &&& cpus == Some(c)
            &&& ram_gb == Some(r)
            &&& multiplier == big_instance_multiplier
            &&& instance_type is None
        },
    }
}

/// The built mode reflects the requested one; direct mode starts with an
/// empty public key for the transport layer to fill in.
pub open spec fn spec_mode_matches(mode: ClusterModeSchema, requested: DBClusterModeSchema) -> bool {
    match requested {
        DBClusterModeSchema::Direct => mode matches ClusterModeSchema::Direct { client_public_key }
            && client_public_key@ == Seq::<char>::empty(),
        DBClusterModeSchema::Proxy => mode is Proxy,
    }
}

/// Validate and build the sizing of a cluster: big-instance parameters only
/// above one machine, and exactly one sizing shape, both reported as usage
/// errors before any network call.
pub fn build_instance_specs(
    instance_type: Option<String>,
    cpus: Option<u32>,
    ram_gb: Option<u32>,
    big_instance_type: Option<String>,
    big_instance_multiplier: Option<u32>,
    cluster_size: u32,
) -> (r: Result<InstanceSpecsSchema, ApiError>)
    ensures
        spec_big_instance_conflict(big_instance_type, big_instance_multiplier, cluster_size)
            ==> r matches Err(ApiError::Usage { .. }),
        !spec_big_instance_conflict(big_instance_type, big_instance_multiplier, cluster_size)
            && !spec_sizing_valid(instance_type, cpus, ram_gb) ==> r matches Err(
            ApiError::Usage { .. },
        ),
        !spec_big_instance_conflict(big_instance_type, big_instance_multiplier, cluster_size)
            && spec_sizing_valid(instance_type, cpus, ram_gb) ==> (r matches Ok(instance)
            && spec_instance_matches(
            instance,
            instance_type,
            cpus,
            ram_gb,
            big_instance_type,
            big_instance_multiplier,
        )),
{
    if (big_instance_type.is_some() || big_instance_multiplier.is_some()) && cluster_size <= 1 {
        return Err(
            ApiError::Usage {
                message: "Invalid specification big instance set while cluster size is equal to 1."
                    .to_owned(),
            },
        );
    }
    match (instance_type, cpus, ram_gb) {
        (Some(instance_type), None, None) => Ok(
            InstanceSpecsSchema::InstanceType { standard: instance_type, big: big_instance_type },
        ),
        (None, Some(cpus), Some(ram_gb)) => Ok(
            InstanceSpecsSchema::Specs { cpus, ram_gb, multiplier: big_instance_multiplier },
        ),
        _ => Err(
            ApiError::Usage {
                message: "Invalid parameters: either (cpu & memory) or instance type must be specified."
                    .to_owned(),
            },
        ),
    }
}

/// Build the mode payload for the requested mode.
pub fn build_cluster_mode(mode: DBClusterModeSchema) -> (r: ClusterModeSchema)
    ensures
        spec_mode_matches(r, mode),
{
    if mode == DBClusterModeSchema::Direct {
        ClusterModeSchema::Direct { client_public_key: String::new() }
    } else {
        ClusterModeSchema::Proxy
    }
}

/// The register payload that `f` was dispatched with reflects every given
/// parameter and the session's version configuration.
pub open spec fn spec_register_args_match<L>(
    args: RegisterComputeClusterArgs<L>,
    name: String,
    cluster_size: u32,
    mode: DBClusterModeSchema,
    cpus: Option<u32>,
    ram_gb: Option<u32>,
    instance_type: Option<String>,
    storage: Option<u32>,
    big_instance_type: Option<String>,
    big_instance_multiplier: Option<u32>,
    big_instance_storage: Option<u32>,
    requirements_txt: Option<String>,
    labels: Option<Vec<String>>,
    log_level: L,
    idle_timeout_mins: Option<u32>,
    versions: VersionInfo,
) -> bool {
    &&& args.name == name
    &&& args.cluster_size == cluster_size
    &&& spec_mode_matches(args.mode, mode)
    &&& spec_instance_matches(
        args.instance,
        instance_type,
        cpus,
        ram_gb,
        big_instance_type,
        big_instance_multiplier,
    )
    &&& args.storage == storage
    &&& args.big_instance_storage == big_instance_storage
    &&& args.requirements_txt == requirements_txt
    &&& args.labels == labels
    &&& args.log_level == log_level
    &&& args.idle_timeout_mins == idle_timeout_mins
    &&& args.python_version == versions.python_version
    &&& args.polars_version@ == versions.polars_version@
}

/// Some register payload matching the parameters was dispatched through `f`
/// with outcome `out`.
pub open spec fn register_dispatched<T, L, F: FnOnce(RestClient, RegisterComputeClusterArgs<L>) -> Result<
    T,
    RestError,
>>(
    f: F,
    rest: RestClient,
    name: String,
    cluster_size: u32,
    mode: DBClusterModeSchema,
    cpus: Option<u32>,
    ram_gb: Option<u32>,
    instance_type: Option<String>,
    storage: Option<u32>,
    big_instance_type: Option<String>,
    big_instance_multiplier: Option<u32>,
    big_instance_storage: Option<u32>,
    requirements_txt: Option<String>,
    labels: Option<Vec<String>>,
    log_level: L,
    idle_timeout_mins: Option<u32>,
    versions: VersionInfo,
    out: Result<T, RestError>,
) -> bool {
    exists|args: RegisterComputeClusterArgs<L>|
        spec_register_args_match(
            args,
            name,
            cluster_size,
            mode,
            cpus,
            ram_gb,
            instance_type,
            storage,
            big_instance_type,
            big_instance_multiplier,
            big_instance_storage,
            requirements_txt,
            labels,
            log_level,
            idle_timeout_mins,
            versions,
        ) && #[trigger] f.ensures((rest, args), out)
}

/// The start payload that `f` was dispatched with reflects every given
/// parameter and the session's version configuration.
pub open spec fn spec_start_args_match<L>(
    args: StartComputeClusterArgs<L>,
    cluster_size: u32,
    mode: DBClusterModeSchema,
    cpus: Option<u32>,
    ram_gb: Option<u32>,
    instance_type: Option<String>,
    storage: Option<u32>,
    big_instance_type: Option<String>,
    big_instance_multiplier: Option<u32>,
    big_instance_storage: Option<u32>,
    requirements_txt: Option<String>,
    labels: Option<Vec<String>>,
    log_level: Option<L>,
    idle_timeout_mins: Option<u32>,
    versions: VersionInfo,
) -> bool {
    &&& args.cluster_size == cluster_size
    &&& spec_mode_matches(args.mode, mode)
    &&& spec_instance_matches(
        args.instance,
        instance_type,
        cpus,
        ram_gb,
        big_instance_type,
        big_instance_multiplier,
    )
    &&& args.storage == storage
    &&& args.big_instance_storage == big_instance_storage
    &&& args.requirements_txt == requirements_txt
    &&& args.labels == labels
    &&& args.log_level == log_level
    &&& args.idle_timeout_mins == idle_timeout_mins
    &&& args.python_version == versions.python_version
    &&& args.polars_version@ == versions.polars_version@
}

/// Some start payload matching the parameters was dispatched through `f`
/// with outcome `out`.
pub open spec fn start_dispatched<T, L, F: FnOnce(RestClient, StartComputeClusterArgs<L>) -> Result<
    T,
    RestError,
>>(
    f: F,
    rest: RestClient,
    cluster_size: u32,
    mode: DBClusterModeSchema,
    cpus: Option<u32>,
    ram_gb: Option<u32>,
    instance_type: Option<String>,
    storage: Option<u32>,
    big_instance_type: Option<String>,
    big_instance_multiplier: Option<u32>,
    big_instance_storage: Option<u32>,
    requirements_txt: Option<String>,
    labels: Option<Vec<String>>,
    log_level: Option<L>,
    idle_timeout_mins: Option<u32>,
    versions: VersionInfo,
    out: Result<T, RestError>,
) -> bool {
    exists|args: StartComputeClusterArgs<L>|
        spec_start_args_match(
            args,
            cluster_size,
            mode,
            cpus,
            ram_gb,
            instance_type,
            storage,
            big_instance_type,
            big_instance_multiplier,
            big_instance_storage,
            requirements_txt,
            labels,
            log_level,
            idle_timeout_mins,
            versions,
        ) && #[trigger] f.ensures((rest, args), out)
}

/// Some manifest-start payload carrying the given name and the session's
/// version configuration was dispatched through `f` with outcome `out`.
pub open spec fn manifest_start_dispatched<T, F: FnOnce(
    RestClient,
    StartComputeClusterManifestArgs,
) -> Result<T, RestError>>(
    f: F,
    rest: RestClient,
    name: String,
    versions: VersionInfo,
    out: Result<T, RestError>,
) -> bool {
    exists|args: StartComputeClusterManifestArgs|
        {
            &&& args.name == name
            &&& args.python_version == versions.python_version
            &&& args.polars_version@ == versions.polars_version@
            &&& #[trigger] f.ensures((rest, args), out)
        }
}

impl WrappedAPIClient {
    /// Register a reusable compute-cluster manifest: validate the sizing,
    /// build the payload from the parameters and the session's version
    /// configuration, then dispatch it as an authenticated REST call.
    /// Validation failures are usage errors, reported before auth or
    /// network work.
    pub fn register_compute_cluster_manifest<T, E, F, L>(
        &mut self,
        now: u64,
        exchange: E,
        name: String,
        cluster_size: u32,
        mode: DBClusterModeSchema,
        cpus: Option<u32>,
        ram_gb: Option<u32>,
        instance_type: Option<String>,
        storage: Option<u32>,
        big_instance_type: Option<String>,
        big_instance_multiplier: Option<u32>,
        big_instance_storage: Option<u32>,
        requirements_txt: Option<String>,
        labels: Option<Vec<String>>,
        log_level: L,
        idle_timeout_mins: Option<u32>,
        f: F,
    ) -> (r: Result<T, ApiError>)
        where
            E: FnOnce(AuthStrategy) -> Result<String, AuthError>,
            F: FnOnce(RestClient, RegisterComputeClusterArgs<L>) -> Result<T, RestError>,
        requires
            forall|s: AuthStrategy| exchange.requires((s,)),
            forall|c: RestClient, a: RegisterComputeClusterArgs<L>| f.requires((c, a)),
        ensures
            spec_big_instance_conflict(big_instance_type, big_instance_multiplier, cluster_size)
                || !spec_sizing_valid(instance_type, cpus, ram_gb) ==> (r matches Err(
                ApiError::Usage { .. },
            ) && *final(self) == *old(self)),
            r matches Err(ApiError::Usage { .. }) ==> spec_big_instance_conflict(
                big_instance_type,
                big_instance_multiplier,
                cluster_size,
            ) || !spec_sizing_valid(instance_type, cpus, ram_gb),
            old(self).auth_token is None && !spec_big_instance_conflict(
                big_instance_type,
                big_instance_multiplier,
                cluster_size,
            ) && spec_sizing_valid(instance_type, cpus, ram_gb) ==> r == Err::<T, ApiError>(
                ApiError::Auth(AuthError::MissingToken),
            ) && *final(self) == *old(self),
            r matches Err(ApiError::Auth(e)) ==> *final(self) == *old(self) && (e
                == AuthError::MissingToken || e == AuthError::RefreshFailed),
            r matches Err(ApiError::Auth(e)) && e == AuthError::MissingToken ==> old(
                self,
            ).auth_token is None,
            r matches Ok(v) ==> (final(self).auth_token matches Some(t)
                && final(self).rest.auth_header@ == t.spec_header() && register_dispatched(
                f,
                final(self).rest,
                name,
                cluster_size,
                mode,
                cpus,
                ram_gb,
                instance_type,
                storage,
                big_instance_type,
                big_instance_multiplier,
                big_instance_storage,
                requirements_txt,
                labels,
                log_level,
                idle_timeout_mins,
                final(self).versions,
                Ok(v),
            )),
            r matches Err(ApiError::Rest { status, body, auth_method }) ==> (register_dispatched(
                f,
                final(self).rest,
                name,
                cluster_size,
                mode,
                cpus,
                ram_gb,
                instance_type,
                storage,
                big_instance_type,
                big_instance_multiplier,
                big_instance_storage,
                requirements_txt,
                labels,
                log_level,
                idle_timeout_mins,
                final(self).versions,
                Err(RestError { status, body }),
            ) && auth_method == final(self).spec_auth_method()),
            final(self).versions == old(self).versions,
            final(self).spec_auth_method() == old(self).spec_auth_method(),
    {
        let cluster_mode = build_cluster_mode(mode);
        let instance = match build_instance_specs(
            instance_type,
            cpus,
            ram_gb,
            big_instance_type,
            big_instance_multiplier,
            cluster_size,
        ) {
            Ok(instance) => instance,
            Err(e) => {
                return Err(e);
            },
        };
        match self.set_or_refresh_auth(now, exchange) {
            Ok(()) => {},
            Err(e) => {
                return Err(ApiError::Auth(e));
            },
        }
        let args = RegisterComputeClusterArgs {
            name,
            instance,
            storage,
            big_instance_storage,
            cluster_size,
            mode: cluster_mode,
            labels,
            log_level,
            requirements_txt,
            python_version: self.versions.python_version,
            polars_version: self.versions.polars_version.clone(),
            idle_timeout_mins,
        };
        let ghost sent = args;
        let out = f(self.rest.snapshot(), args);
        match out {
            Ok(v) => {
                proof {
                    assert(f.ensures((self.rest, sent), Ok(v)));
                }
                Ok(v)
            },
            Err(e) => {
                proof {
                    assert(f.ensures(
                        (self.rest, sent),
                        Err(RestError { status: e.status, body: e.body }),
                    ));
                }
                Err(ApiError::from_with_auth_method(e, self.get_auth_method()))
            },
        }
    }

    /// Start an ad-hoc compute cluster: the same sizing validation and
    /// payload building as registering a manifest, without a name.
    pub fn start_compute<T, E, F, L>(
        &mut self,
        now: u64,
        exchange: E,
        cluster_size: u32,
        mode: DBClusterModeSchema,
        cpus: Option<u32>,
        ram_gb: Option<u32>,
        instance_type: Option<String>,
        storage: Option<u32>,
        big_instance_type: Option<String>,
        big_instance_multiplier: Option<u32>,
        big_instance_storage: Option<u32>,
        requirements_txt: Option<String>,
        labels: Option<Vec<String>>,
        log_level: Option<L>,
        idle_timeout_mins: Option<u32>,
        f: F,
    ) -> (r: Result<T, ApiError>)
        where
            E: FnOnce(AuthStrategy) -> Result<String, AuthError>,
            F: FnOnce(RestClient, StartComputeClusterArgs<L>) -> Result<T, RestError>,
        requires
            forall|s: AuthStrategy| exchange.requires((s,)),
            forall|c: RestClient, a: StartComputeClusterArgs<L>| f.requires((c, a)),
        ensures
            spec_big_instance_conflict(big_instance_type, big_instance_multiplier, cluster_size)
                || !spec_sizing_valid(instance_type, cpus, ram_gb) ==> (r matches Err(
                ApiError::Usage { .. },
            ) && *final(self) == *old(self)),
            r matches Err(ApiError::Usage { .. }) ==> spec_big_instance_conflict(
                big_instance_type,
                big_instance_multiplier,
                cluster_size,
            ) || !spec_sizing_valid(instance_type, cpus, ram_gb),
            old(self).auth_token is None && !spec_big_instance_conflict(
                big_instance_type,
                big_instance_multiplier,
                cluster_size,
            ) && spec_sizing_valid(instance_type, cpus, ram_gb) ==> r == Err::<T, ApiError>(
                ApiError::Auth(AuthError::MissingToken),
            ) && *final(self) == *old(self),
            r matches Err(ApiError::Auth(e)) ==> *final(self) == *old(self) && (e
                == AuthError::MissingToken || e == AuthError::RefreshFailed),
            r matches Err(ApiError::Auth(e)) && e == AuthError::MissingToken ==> old(
                self,
            ).auth_token is None,
            r matches Ok(v) ==> (final(self).auth_token matches Some(t)
                && final(self).rest.auth_header@ == t.spec_header() && start_dispatched(
                f,
                final(self).rest,
                cluster_size,
                mode,
                cpus,
                ram_gb,
                instance_type,
                storage,
                big_instance_type,
                big_instance_multiplier,
                big_instance_storage,
                requirements_txt,
                labels,
                log_level,
                idle_timeout_mins,
                final(self).versions,
                Ok(v),
            )),
            r matches Err(ApiError::Rest { status, body, auth_method }) ==> (start_dispatched(
                f,
                final(self).rest,
                cluster_size,
                mode,
                cpus,
                ram_gb,
                instance_type,
                storage,
                big_instance_type,
                big_instance_multiplier,
                big_instance_storage,
                requirements_txt,
                labels,
                log_level,
                idle_timeout_mins,
                final(self).versions,
                Err(RestError { status, body }),
            ) && auth_method == final(self).spec_auth_method()),
            final(self).versions == old(self).versions,
            final(self).spec_auth_method() == old(self).spec_auth_method(),
    {
        let cluster_mode = build_cluster_mode(mode);
        let instance = match build_instance_specs(
            instance_type,
            cpus,
            ram_gb,
            big_instance_type,
            big_instance_multiplier,
            cluster_size,
        ) {
            Ok(instance) => instance,
            Err(e) => {
                return Err(e);
            },
        };
        match self.set_or_refresh_auth(now, exchange) {
            Ok(()) => {},
            Err(e) => {
                return Err(ApiError::Auth(e));
            },
        }
        let args = StartComputeClusterArgs {
            instance,
            storage,
            big_instance_storage,
            cluster_size,
            mode: cluster_mode,
            labels,
            log_level,
            requirements_txt,
            python_version: self.versions.python_version,
            polars_version: self.versions.polars_version.clone(),
            idle_timeout_mins,
        };
        let ghost sent = args;
        let out = f(self.rest.snapshot(), args);
        match out {
            Ok(v) => {
                proof {
                    assert(f.ensures((self.rest, sent), Ok(v)));
                }
                Ok(v)
            },
            Err(e) => {
                proof {
                    assert(f.ensures(
                        (self.rest, sent),
                        Err(RestError { status: e.status, body: e.body }),
                    ));
                }
                Err(ApiError::from_with_auth_method(e, self.get_auth_method()))
            },
        }
    }

    /// Start a cluster from a registered manifest: the payload carries the
    /// manifest's name and the session's version configuration.
    pub fn start_compute_cluster_manifest<T, E, F>(
        &mut self,
        now: u64,
        exchange: E,
        name: String,
        f: F,
    ) -> (r: Result<T, ApiError>)
        where
            E: FnOnce(AuthStrategy) -> Result<String, AuthError>,
            F: FnOnce(RestClient, StartComputeClusterManifestArgs) -> Result<T, RestError>,
        requires
            forall|s: AuthStrategy| exchange.requires((s,)),
            forall|c: RestClient, a: StartComputeClusterManifestArgs| f.requires((c, a)),
        ensures
            old(self).auth_token is None ==> r == Err::<T, ApiError>(ApiError::Auth(
                AuthError::MissingToken,
            )) && *final(self) == *old(self),
            r matches Err(ApiError::Auth(e)) ==> *final(self) == *old(self) && (e
                == AuthError::MissingToken || e == AuthError::RefreshFailed),
            r matches Err(ApiError::Auth(e)) && e == AuthError::MissingToken ==> old(
                self,
            ).auth_token is None,
            r matches Ok(v) ==> (final(self).auth_token matches Some(t)
                && final(self).rest.auth_header@ == t.spec_header() && manifest_start_dispatched(
                f,
                final(self).rest,
                name,
                final(self).versions,
                Ok(v),
            )),
            r matches Err(ApiError::Rest { status, body, auth_method }) ==> (
            manifest_start_dispatched(
                f,
                final(self).rest,
                name,
                final(self).versions,
                Err(RestError { status, body }),
            ) && auth_method == final(self).spec_auth_method()),
            !(r matches Err(ApiError::Usage { .. })) && !(r matches Err(ApiError::Grpc { .. })),
            final(self).versions == old(self).versions,
            final(self).spec_auth_method() == old(self).spec_auth_method(),
    {
        match self.set_or_refresh_auth(now, exchange) {
            Ok(()) => {},
            Err(e) => {
                return Err(ApiError::Auth(e));
            },
        }
        let args = StartComputeClusterManifestArgs {
            name,
            python_version: self.versions.python_version,
            polars_version: self.versions.polars_version.clone(),
        };
        let ghost sent = args;
        let out = f(self.rest.snapshot(), args);
        match out {
            Ok(v) => {
                proof {
                    assert(f.ensures((self.rest, sent), Ok(v)));
                }
                Ok(v)
            },
            Err(e) => {
                proof {
                    assert(f.ensures(
                        (self.rest, sent),
                        Err(RestError { status: e.status, body: e.body }),
                    ));
                }
                Err(ApiError::from_with_auth_method(e, self.get_auth_method()))
            },
        }
    }

    /// List the compute clusters of a workspace: an aggregated paginated
    /// call whose page requests this method builds, page numbers from 1 at
    /// the fixed page size. The workspace and any status filter live in the
    /// operation itself.
    pub fn get_compute_clusters<T, E, F>(&mut self, now: u64, exchange: E, f: F) -> (r: Result<
        Vec<T>,
        ApiError,
    >)
        where
            E: FnOnce(AuthStrategy) -> Result<String, AuthError>,
            F: Fn(RestClient, Pagination) -> Result<Paginated<T>, RestError> + Copy,
        requires
            forall|c: RestClient, p: Pagination| f.requires((c, p)),
            forall|s: AuthStrategy| exchange.requires((s,)),
        ensures
            old(self).auth_token is None ==> r == Err::<Vec<T>, ApiError>(ApiError::Auth(
                AuthError::MissingToken,
            )) && *final(self) == *old(self),
            r matches Err(ApiError::Auth(e)) ==> *final(self) == *old(self) && (e
                == AuthError::MissingToken || e == AuthError::RefreshFailed),
            r matches Err(ApiError::Auth(e)) && e == AuthError::MissingToken ==> old(
                self,
            ).auth_token is None,
            !(r matches Err(ApiError::Auth(_))) ==> (final(self).auth_token matches Some(t)
                && t.spec_strategy() == old(self).auth_token.unwrap().spec_strategy()
                && final(self).rest.auth_header@ == t.spec_header()),
            r matches Ok(items) ==> exists|pages: Seq<Paginated<T>>|
                #[trigger] spec_request_page_run(f, final(self).rest, pages) && items@
                    == spec_pages_items(pages),
            r matches Err(ApiError::Rest { status, body, auth_method }) ==> spec_request_page_failed(
                f,
                final(self).rest,
                status,
                body,
            ) && auth_method == final(self).spec_auth_method(),
            !(r matches Err(ApiError::Grpc { .. })) && !(r matches Err(ApiError::Usage { .. })),
            final(self).grpc == old(self).grpc,
            final(self).versions == old(self).versions,
            final(self).spec_auth_method() == old(self).spec_auth_method(),
    {
        let fetch = move |c: RestClient, page: u64| -> (out: Result<Paginated<T>, RestError>)
            ensures
                f.ensures((c, spec_page_request(page)), out),
            { f(c, Pagination { page, limit: 1000, offset: 0 }) };
        let r = self.call_paginated(now, exchange, fetch);
        match r {
            Ok(items) => {
                proof {
                    let pages = choose|pages: Seq<Paginated<T>>|
                        #[trigger] crate::api_client::spec_page_run(fetch, self.rest, pages)
                            && items@ == spec_pages_items(pages);
                    assert forall|i: int| 0 <= i < pages.len() implies #[trigger] f.ensures(
                        (self.rest, spec_page_request((i + 1) as u64)),
                        Ok(pages[i]),
                    ) by {
                        assert(fetch.ensures((self.rest, (i + 1) as u64), Ok(pages[i])));
                    }
                    assert(spec_request_page_run(f, self.rest, pages));
                }
                Ok(items)
            },
            Err(e) => Err(e),
        }
    }
}

} // verus!
