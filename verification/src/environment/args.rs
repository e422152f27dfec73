//! The options of the command line.

use crate::aws::types::AwsExternalIdPrefix;
use crate::string_map::KeyValueArg;
use http::header::HeaderValue;
use std::path::PathBuf;
use std::time::Duration;
use url::Url;
use uuid::Uuid;
use vstd::prelude::*;

verus! {

/// An IP address.
#[derive(Clone, Copy, Debug, PartialEq, Eq)]
pub enum IpAddress {
    V4(u32),
    V6(u128),
}

/// An address to listen on.
#[derive(Clone, Copy, Debug, PartialEq, Eq)]
pub enum ListenAddress {
    V4 { ip: u32, port: u16 },
    V6 { ip: u128, port: u16, flowinfo: u32, scope_id: u32 },
}

impl ListenAddress {
    /// The port of the address.
    pub open spec fn port_spec(self) -> u16 {
        match self {
            ListenAddress::V4 { port, .. } => port,
            ListenAddress::V6 { port, .. } => port,
        }
    }

    /// The port of the address.
    pub fn port(&self) -> (port: u16)
        ensures
            port == self.port_spec(),
    {
        match *self {
            ListenAddress::V4 { port, .. } => port,
            ListenAddress::V6 { port, .. } => port,
        }
    }
}

/// The options of the command line.
pub struct Args {
    /// Enable unsafe features.
    pub unsafe_mode: bool,
    pub connection: ConnectionArgs,
    pub orchestrator: OrchestratorArgs,
    pub storage: StorageArgs,
    /// The PostgreSQL URL for the adapter stash.
    pub adapter_stash_url: String,
    pub cloud: CloudArgs,
}

/// Connection options.
pub struct ConnectionArgs {
    /// The address on which to listen for untrusted SQL connections.
    pub sql_listen_addr: ListenAddress,
    /// The address on which to listen for untrusted HTTP connections.
    pub http_listen_addr: ListenAddress,
    /// The address on which to listen for trusted SQL connections.
    pub internal_sql_listen_addr: ListenAddress,
    /// The address on which to listen for trusted HTTP connections.
    pub internal_http_listen_addr: ListenAddress,
    /// Enable cross-origin resource sharing for HTTP requests from these origins.
    /// Without any, all local connections are allowed.
    pub cors_allowed_origin: Vec<HeaderValue>,
    /// How stringently to demand TLS: `disable` or `require`.
    pub tls_mode: String,
    /// Certificate file for TLS connections.
    pub tls_cert: Option<PathBuf>,
    /// Private key file for TLS connections.
    pub tls_key: Option<PathBuf>,
    /// Enables Frontegg authentication for the specified tenant ID.
    pub frontegg_tenant: Option<Uuid>,
    /// Key that validates tokens during Frontegg authentication, as a PEM public
    /// key. Can optionally be base64 encoded with the URL-safe alphabet.
    pub frontegg_jwk: Option<String>,
    /// The full URL (including path) to the Frontegg api-token endpoint.
    pub frontegg_api_token_url: Option<String>,
    /// The name of the admin role in Frontegg.
    pub frontegg_admin_role: Option<String>,
}

/// The service orchestrators.
#[derive(Clone, Copy, Debug, PartialEq, Eq, Structural)]
pub enum OrchestratorKind {
    Kubernetes,
    Process,
}

/// When Kubernetes pulls the images of services.
#[derive(Clone, Copy, Debug, PartialEq, Eq, Structural)]
pub enum KubernetesImagePullPolicy {
    Always,
    IfNotPresent,
    Never,
}

/// Orchestrator options.
pub struct OrchestratorArgs {
    /// The service orchestrator implementation to use.
    pub orchestrator: OrchestratorKind,
    /// Name of a non-default Kubernetes scheduler, if any.
    pub kubernetes_scheduler_name: Option<String>,
    /// Labels to apply to all services created by the Kubernetes orchestrator.
    pub kubernetes_service_label: Vec<KeyValueArg>,
    /// Node selector to apply to all services created by the Kubernetes
    /// orchestrator.
    pub kubernetes_service_node_selector: Vec<KeyValueArg>,
    /// The name of a service account to apply to all services created by the
    /// Kubernetes orchestrator.
    pub kubernetes_service_account: Option<String>,
    /// The Kubernetes context to use with the Kubernetes orchestrator.
    pub kubernetes_context: String,
    /// The image pull policy to use for services created by the Kubernetes
    /// orchestrator.
    pub kubernetes_image_pull_policy: KubernetesImagePullPolicy,
    /// Prefix commands issued by the process orchestrator with the supplied value.
    pub process_wrapper: Option<String>,
    /// Where the process orchestrator should store secrets.
    pub process_secrets_directory: Option<PathBuf>,
    /// Whether the process orchestrator should handle crashes in child processes by
    /// crashing the parent process.
    pub process_propagate_crashes: bool,
    /// An IP address on which the process orchestrator should bind TCP proxies for
    /// Unix domain sockets.
    pub process_tcp_proxy_listen_addr: Option<IpAddress>,
    /// A directory in which the process orchestrator should write Prometheus scrape
    /// targets. Ignored unless there is an address for TCP proxies.
    pub process_prometheus_service_discovery_directory: Option<PathBuf>,
}

/// Storage options, and what the controller runs.
pub struct StorageArgs {
    /// Where the persist library should store its blob data.
    pub persist_blob_url: Url,
    /// Where the persist library should perform consensus.
    pub persist_consensus_url: Url,
    /// The PostgreSQL URL for the storage stash.
    pub storage_stash_url: String,
    /// The clusterd image reference to use.
    pub clusterd_image: Option<String>,
    /// The init container for services created by the Kubernetes orchestrator.
    pub kubernetes_init_container_image: Option<String>,
}

/// Cloud options, and those that the server takes as they are.
pub struct CloudArgs {
    /// The identifier of the environment.
    pub environment_id: String,
    /// Prefix for an external ID to be supplied to all AWS AssumeRole operations.
    pub aws_external_id_prefix: Option<AwsExternalIdPrefix>,
    /// Availability zones in which storage and compute resources may be deployed.
    pub availability_zone: Vec<String>,
    /// The size of the default cluster replica if bootstrapping.
    pub bootstrap_default_cluster_replica_size: String,
    /// The size of the builtin cluster replicas if bootstrapping.
    pub bootstrap_builtin_cluster_replica_size: String,
    /// Values for system parameters that are not already modified.
    pub bootstrap_system_parameter: Vec<KeyValueArg>,
    /// Default storage host size.
    pub default_storage_host_size: Option<String>,
    /// The interval at which to collect storage usage information.
    pub storage_usage_collection_interval: Duration,
    /// The period for which to retain usage records.
    pub storage_usage_retention_period: Option<Duration>,
    /// An API key for Segment.
    pub segment_api_key: Option<String>,
    /// Public IPv4 addresses which the cloud environment has configured for egress.
    pub announce_egress_ip: Vec<u32>,
    /// An SDK key for LaunchDarkly.
    pub launchdarkly_sdk_key: Option<String>,
    /// LaunchDarkly feature keys by the names of system parameters.
    pub launchdarkly_key_map: Vec<KeyValueArg>,
    /// The interval at which to synchronize system parameter values.
    pub config_sync_loop_interval: Option<Duration>,
    /// The 12-digit AWS account id.
    pub aws_account_id: Option<String>,
    /// The list of supported AWS PrivateLink availability zone ids.
    pub aws_privatelink_availability_zones: Option<Vec<String>>,
}

} // verus!
