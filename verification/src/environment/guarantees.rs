//! What the options of the command line come to, option by option.

use crate::aws::types::AwsExternalIdPrefix;
use crate::base64url::stands_for;
use crate::environment::args::{
    Args, CloudArgs, ConnectionArgs, ListenAddress, OrchestratorArgs, StorageArgs,
};
use crate::environment::connections::{
    allows, encoded_jwk_is_decoded, jwk_pem, plain_jwk_is_kept, tls_spec, ConnectionSettings,
    TlsMode,
};
use crate::environment::controller::{ControllerSettings, ServerSettings};
use crate::environment::error::ConfigError;
use crate::environment::orchestrator::{
    command_wrapper_spec, prefix_view, KubernetesOrchestratorConfig, ProcessOrchestratorConfig,
};
use crate::environment::run::{Connected, OrchestratorConfig, Orchestrated, ServePlan};
use crate::environment::startup::{banner_spec, with_lines, ServerAddresses};
use crate::outside::{header_bytes, rsa_decoding_key, shell_split, url_text};
use crate::string_map::{argument_map_is_exact, last_wins};
use crate::text::decimal;
use http::header::HeaderValue;
use std::path::PathBuf;
use vstd::prelude::*;
use vstd::utf8::*;

verus! {

/// The port of an address is the one it was written with.
pub proof fn port_is_that_of_the_address(
    ip4: u32,
    ip6: u128,
    port: u16,
    flowinfo: u32,
    scope_id: u32,
)
    ensures
        (ListenAddress::V4 { ip: ip4, port }).port_spec() == port,
        (ListenAddress::V6 { ip: ip6, port, flowinfo, scope_id }).port_spec() == port,
{
}

/// TLS is off or required with the given files. Files are refused where TLS is off,
/// and of the two the certificate is refused first.
pub proof fn tls_follows_its_options(mode: Seq<char>, cert: Option<PathBuf>, key: Option<PathBuf>)
    requires
        mode == "disable"@ || mode == "require"@,
        mode != "disable"@ ==> cert is Some && key is Some,
    ensures
        match tls_spec(mode, cert, key) {
            Ok(None) => mode == "disable"@ && cert is None && key is None,
            Ok(Some(tls)) => {
                &&& mode == "require"@
                &&& tls.mode == TlsMode::Require
                &&& cert == Some(tls.cert)
                &&& key == Some(tls.key)
            },
            Err(ConfigError::TlsCertWithoutTls) => mode == "disable"@ && cert is Some,
            Err(ConfigError::TlsKeyWithoutTls) => mode == "disable"@ && cert is None && key is Some,
            Err(_) => false,
        },
{
}

/// The command line has to give TLS one of its two modes, with both files where it is
/// required. Where it is off and no file is given, or where it is required, the
/// Frontegg options have to come all four together.
pub proof fn what_connections_rely_on(args: ConnectionArgs)
    ensures
        args.well_formed() <==> ({
            let off = args.tls_mode@ == "disable"@;
            let required = args.tls_mode@ == "require"@ && !off;
            let files = args.tls_cert is Some && args.tls_key is Some;
            let no_files = args.tls_cert is None && args.tls_key is None;
            let all = args.frontegg_tenant is Some && args.frontegg_api_token_url is Some
                && args.frontegg_jwk is Some && args.frontegg_admin_role is Some;
            let none = args.frontegg_tenant is None && args.frontegg_api_token_url is None
                && args.frontegg_jwk is None && args.frontegg_admin_role is None;
            ||| off && !no_files
            ||| off && no_files && (all || none)
            ||| required && files && (all || none)
        }),
{
}

/// The process orchestrator needs a place for secrets, and the controller needs an
/// image; nothing else is relied on.
pub proof fn what_services_rely_on(orchestrator: OrchestratorArgs, storage: StorageArgs)
    ensures
        orchestrator.well_formed() <==> (orchestrator.orchestrator is Kubernetes
            || orchestrator.process_secrets_directory is Some),
        storage.well_formed() <==> storage.clusterd_image is Some,
{
}

/// Whether the key was read from what `jwk` stands for: from what it is the base64
/// encoding of, if it is one, and else from itself.
pub open spec fn reads_jwk(jwk: Seq<char>, key: Result<
    jsonwebtoken::DecodingKey,
    jsonwebtoken::errors::Error,
>) -> bool {
    &&& forall|pem: Seq<u8>|
        #[trigger] stands_for(encode_utf8(jwk), pem) ==> key == rsa_decoding_key(pem)
    &&& (forall|pem: Seq<u8>| !#[trigger] stands_for(encode_utf8(jwk), pem)) ==> key
        == rsa_decoding_key(encode_utf8(jwk))
    &&& jwk.contains(' ') ==> key == rsa_decoding_key(encode_utf8(jwk))
}

proof fn jwk_is_read(jwk: Seq<char>)
    ensures
        reads_jwk(jwk, rsa_decoding_key(jwk_pem(jwk))),
{
    assert forall|pem: Seq<u8>| #[trigger] stands_for(encode_utf8(jwk), pem) implies
        jwk_pem(jwk) == pem by {
        encoded_jwk_is_decoded(jwk, pem);
    }
    if jwk.contains(' ') {
        plain_jwk_is_kept(jwk);
    }
}

/// Whether `origins` are the configured ones or, without any, those of local clients:
/// by name and by address, with and without TLS, at the given port.
pub open spec fn admits(
    configured: Seq<HeaderValue>,
    port: u16,
    origins: Seq<HeaderValue>,
) -> bool {
    let digits = decimal(port as nat);
    if configured.len() > 0 {
        origins == configured
    } else {
        &&& origins.len() == 6
        &&& header_bytes(origins[0]) == encode_utf8("http://localhost:"@ + digits)
        &&& header_bytes(origins[1]) == encode_utf8("http://127.0.0.1:"@ + digits)
        &&& header_bytes(origins[2]) == encode_utf8("http://[::1]:"@ + digits)
        &&& header_bytes(origins[3]) == encode_utf8("https://localhost:"@ + digits)
        &&& header_bytes(origins[4]) == encode_utf8("https://127.0.0.1:"@ + digits)
        &&& header_bytes(origins[5]) == encode_utf8("https://[::1]:"@ + digits)
    }
}

/// The origins that are allowed are the configured ones, or the local ones at the port.
pub proof fn allowed_origins_are_local_or_configured(
    configured: Seq<HeaderValue>,
    port: u16,
    origins: Seq<HeaderValue>,
)
    requires
        allows(configured, port, origins),
    ensures
        admits(configured, port, origins),
{
}

/// Each server listens where its own option says. TLS and Frontegg are on exactly if
/// their options say so, and have what their options give. The origins are those for
/// the port of the HTTP server.
pub proof fn clients_connect_as_configured(args: ConnectionArgs, settings: ConnectionSettings)
    requires
        args.well_formed(),
        args.gives(settings),
    ensures
        settings.sql_listen_addr == args.sql_listen_addr,
        settings.http_listen_addr == args.http_listen_addr,
        settings.internal_sql_listen_addr == args.internal_sql_listen_addr,
        settings.internal_http_listen_addr == args.internal_http_listen_addr,
        match settings.tls {
            None => args.tls_mode@ == "disable"@ && args.tls_cert is None && args.tls_key is None,
            Some(tls) => {
                &&& args.tls_mode@ == "require"@
                &&& tls.mode == TlsMode::Require
                &&& args.tls_cert == Some(tls.cert)
                &&& args.tls_key == Some(tls.key)
            },
        },
        match settings.frontegg {
            None => args.frontegg_tenant is None,
            Some(frontegg) => {
                &&& args.frontegg_tenant == Some(frontegg.tenant_id)
                &&& args.frontegg_api_token_url == Some(frontegg.admin_api_token_url)
                &&& args.frontegg_admin_role == Some(frontegg.admin_role)
                &&& frontegg.refresh_before_secs == 60
                &&& args.frontegg_jwk is Some
                &&& reads_jwk(args.frontegg_jwk->0@, Ok(frontegg.decoding_key))
            },
        },
        match args.http_listen_addr {
            ListenAddress::V4 { port, .. } => admits(
                args.cors_allowed_origin@,
                port,
                settings.allowed_origins@,
            ),
            ListenAddress::V6 { port, .. } => admits(
                args.cors_allowed_origin@,
                port,
                settings.allowed_origins@,
            ),
        },
{
    if args.frontegg_jwk is Some {
        jwk_is_read(args.frontegg_jwk->0@);
    }
}

/// Connections fail exactly for files without TLS, the certificate first, and then for
/// a key that cannot be read, with the error that reading it gave.
pub proof fn connections_fail_for_cause(args: ConnectionArgs)
    requires
        args.well_formed(),
    ensures
        match args.failure() {
            None => {
                &&& args.tls_mode@ == "disable"@ ==> args.tls_cert is None && args.tls_key is None
                &&& args.frontegg_tenant is Some ==> exists|key: jsonwebtoken::DecodingKey|
                    #[trigger] reads_jwk(args.frontegg_jwk->0@, Ok(key))
            },
            Some(ConfigError::TlsCertWithoutTls) => args.tls_mode@ == "disable"@ && args.tls_cert
                is Some,
            Some(ConfigError::TlsKeyWithoutTls) => args.tls_mode@ == "disable"@ && args.tls_cert
                is None && args.tls_key is Some,
            Some(ConfigError::Jwk(err)) => {
                &&& args.tls_mode@ == "disable"@ ==> args.tls_cert is None && args.tls_key is None
                &&& args.frontegg_tenant is Some
                &&& reads_jwk(args.frontegg_jwk->0@, Err(err))
            },
            Some(_) => false,
        },
{
    if args.frontegg_jwk is Some {
        jwk_is_read(args.frontegg_jwk->0@);
        if let Ok(key) = rsa_decoding_key(jwk_pem(args.frontegg_jwk->0@)) {
            assert(reads_jwk(args.frontegg_jwk->0@, Ok(key)));
        }
    }
}

/// Services on Kubernetes are run as the options for Kubernetes say, each under its
/// own name. Of options for one key the last holds.
pub proof fn kubernetes_runs_as_configured(
    args: OrchestratorArgs,
    prefix: Option<AwsExternalIdPrefix>,
    config: KubernetesOrchestratorConfig,
)
    requires
        args.gives_kubernetes(prefix, config),
    ensures
        config.context == args.kubernetes_context,
        config.scheduler_name == args.kubernetes_scheduler_name,
        last_wins(args.kubernetes_service_label@, config.service_labels@),
        last_wins(args.kubernetes_service_node_selector@, config.service_node_selector@),
        config.service_account == args.kubernetes_service_account,
        config.image_pull_policy == args.kubernetes_image_pull_policy,
        match (prefix, config.aws_external_id_prefix) {
            (Some(given), Some(taken)) => taken@ == given@,
            (None, None) => true,
            _ => false,
        },
{
    argument_map_is_exact(args.kubernetes_service_label@);
    argument_map_is_exact(args.kubernetes_service_node_selector@);
}

/// Child processes are run as the options for processes say, each under its own name:
/// with the words of the wrapper before each command, or none without a wrapper, and
/// behind proxies exactly if there is an address for them.
pub proof fn processes_run_as_configured(
    args: OrchestratorArgs,
    image_dir: PathBuf,
    environment_id: Seq<char>,
    config: ProcessOrchestratorConfig,
)
    requires
        args.gives_process(image_dir, environment_id, config),
    ensures
        config.image_dir == image_dir,
        !config.suppress_output,
        config.environment_id@ == environment_id,
        args.process_secrets_directory == Some(config.secrets_dir),
        match args.process_wrapper {
            Some(line) => shell_split(line@) == Ok::<Seq<Seq<char>>, shell_words::ParseError>(
                config.command_wrapper.deep_view(),
            ),
            None => config.command_wrapper@.len() == 0,
        },
        config.propagate_crashes == args.process_propagate_crashes,
        match config.tcp_proxy {
            Some(proxy) => {
                &&& args.process_tcp_proxy_listen_addr == Some(proxy.listen_addr)
                &&& args.process_prometheus_service_discovery_directory
                    == proxy.prometheus_service_discovery_dir
            },
            None => args.process_tcp_proxy_listen_addr is None,
        },
{
    if args.process_wrapper is None {
        assert(config.command_wrapper.deep_view().len() == config.command_wrapper@.len());
    }
}

/// The command wrapper fails exactly where its line cannot be split, with the error
/// that splitting gave.
pub proof fn wrapper_fails_where_splitting_fails(wrapper: Option<String>)
    ensures
        match command_wrapper_spec(wrapper) {
            Ok(words) => match wrapper {
                Some(line) => shell_split(line@) == Ok::<Seq<Seq<char>>, shell_words::ParseError>(
                    words,
                ),
                None => words.len() == 0,
            },
            Err(ConfigError::CommandWrapper(err)) => wrapper matches Some(line) && shell_split(
                line@,
            ) == Err::<Seq<Seq<char>>, shell_words::ParseError>(err),
            Err(_) => false,
        },
{
}

/// The controller is started with what each of its options says.
pub proof fn controller_starts_as_configured(args: StorageArgs, settings: ControllerSettings)
    requires
        args.gives(settings),
    ensures
        settings.persist_location.blob_uri@ == url_text(args.persist_blob_url),
        settings.persist_location.consensus_uri@ == url_text(args.persist_consensus_url),
        settings.storage_stash_url == args.storage_stash_url,
        args.clusterd_image == Some(settings.clusterd_image),
        settings.init_container_image == args.kubernetes_init_container_image,
{
}

/// The server is started with what each of its options says, each under its own name.
/// Of options for one key the last holds.
pub proof fn server_starts_as_configured(args: CloudArgs, settings: ServerSettings)
    requires
        args.gives(settings),
    ensures
        settings.environment_id == args.environment_id,
        settings.aws_external_id_prefix == args.aws_external_id_prefix,
        settings.default_storage_cluster_size == args.default_storage_host_size,
        settings.bootstrap_default_cluster_replica_size
            == args.bootstrap_default_cluster_replica_size,
        settings.bootstrap_builtin_cluster_replica_size
            == args.bootstrap_builtin_cluster_replica_size,
        last_wins(args.bootstrap_system_parameter@, settings.bootstrap_system_parameters@),
        settings.availability_zones == args.availability_zone,
        settings.storage_usage_collection_interval == args.storage_usage_collection_interval,
        settings.storage_usage_retention_period == args.storage_usage_retention_period,
        settings.segment_api_key == args.segment_api_key,
        settings.egress_ips == args.announce_egress_ip,
        settings.aws_account_id == args.aws_account_id,
        settings.aws_privatelink_availability_zones == args.aws_privatelink_availability_zones,
        settings.launchdarkly_sdk_key == args.launchdarkly_sdk_key,
        last_wins(args.launchdarkly_key_map@, settings.launchdarkly_key_map@),
        settings.config_sync_loop_interval == args.config_sync_loop_interval,
{
    argument_map_is_exact(args.bootstrap_system_parameter@);
    argument_map_is_exact(args.launchdarkly_key_map@);
}

/// A default size is refused exactly if it is none of the sizes; without a default
/// nothing is refused.
pub proof fn default_size_must_be_a_size(args: CloudArgs, sizes: Seq<String>)
    ensures
        args.default_size_exists(sizes) <==> match args.default_storage_host_size {
            Some(size) => exists|i: int| 0 <= i < sizes.len() && (#[trigger] sizes[i])@ == size@,
            None => true,
        },
{
}

/// From the options to the plan, each option ends up where it belongs: every server
/// listens at its own address, and the controller and the server are started with what
/// their options say. The orchestrator is the one that is asked for, and it controls
/// cloud resources exactly if it is Kubernetes.
pub proof fn plan_follows_every_option(
    args: Args,
    connected: Connected,
    image_dir: Option<PathBuf>,
    config: OrchestratorConfig,
    orchestrated: Orchestrated,
    plan: ServePlan,
)
    requires
        args.gives(connected),
        connected.gives_orchestrator(image_dir, config),
        connected.gives(orchestrated),
        orchestrated.gives(plan),
    ensures
        plan.unsafe_mode == args.unsafe_mode,
        plan.adapter_stash_url == args.adapter_stash_url,
        plan.connection.sql_listen_addr == args.connection.sql_listen_addr,
        plan.connection.http_listen_addr == args.connection.http_listen_addr,
        plan.connection.internal_sql_listen_addr == args.connection.internal_sql_listen_addr,
        plan.connection.internal_http_listen_addr == args.connection.internal_http_listen_addr,
        args.connection.gives(plan.connection),
        plan.controller.persist_location.blob_uri@ == url_text(args.storage.persist_blob_url),
        plan.controller.persist_location.consensus_uri@ == url_text(
            args.storage.persist_consensus_url,
        ),
        plan.controller.storage_stash_url == args.storage.storage_stash_url,
        args.storage.clusterd_image == Some(plan.controller.clusterd_image),
        plan.controller.init_container_image == args.storage.kubernetes_init_container_image,
        args.cloud.gives(plan.server),
        plan.server.environment_id == args.cloud.environment_id,
        plan.server.default_storage_cluster_size == args.cloud.default_storage_host_size,
        plan.server.bootstrap_default_cluster_replica_size
            == args.cloud.bootstrap_default_cluster_replica_size,
        plan.server.bootstrap_builtin_cluster_replica_size
            == args.cloud.bootstrap_builtin_cluster_replica_size,
        plan.controls_cloud_resources <==> args.orchestrator.orchestrator is Kubernetes,
        match config {
            OrchestratorConfig::Kubernetes(kubernetes) => {
                &&& args.orchestrator.orchestrator is Kubernetes
                &&& kubernetes.context == args.orchestrator.kubernetes_context
                &&& prefix_view(kubernetes.aws_external_id_prefix) == prefix_view(
                    args.cloud.aws_external_id_prefix,
                )
            },
            OrchestratorConfig::Process(process) => {
                &&& args.orchestrator.orchestrator is Process
                &&& process.image_dir == image_dir->0
                &&& process.environment_id@ == args.cloud.environment_id@
            },
        },
{
}

/// The first two stages hand on every option that they do not settle.
pub proof fn options_are_handed_on(args: Args, connected: Connected, orchestrated: Orchestrated)
    requires
        args.gives(connected),
        connected.gives(orchestrated),
    ensures
        connected.unsafe_mode == args.unsafe_mode,
        connected.orchestrator == args.orchestrator,
        connected.storage == args.storage,
        connected.adapter_stash_url == args.adapter_stash_url,
        connected.cloud == args.cloud,
        orchestrated.unsafe_mode == args.unsafe_mode,
        orchestrated.connection == connected.connection,
        orchestrated.storage == args.storage,
        orchestrated.adapter_stash_url == args.adapter_stash_url,
        orchestrated.cloud == args.cloud,
{
}

/// What is wrong with the options is what fails first: connections, then the command
/// wrapper of the process orchestrator, then the default size.
pub proof fn failures_come_in_order(args: Args, sizes: Seq<String>)
    ensures
        ({
            let quote = match args.orchestrator.process_wrapper {
                Some(line) => args.orchestrator.orchestrator is Process && shell_split(line@) is Err,
                None => false,
            };
            let unknown = match args.cloud.default_storage_host_size {
                Some(size) => !exists|i: int|
                    0 <= i < sizes.len() && (#[trigger] sizes[i])@ == size@,
                None => false,
            };
            if args.connection.failure() is Some {
                args.failure(sizes) == args.connection.failure()
            } else if quote {
                args.failure(sizes) matches Some(ConfigError::CommandWrapper(err)) && Err::<
                    Seq<Seq<char>>,
                    shell_words::ParseError,
                >(err) == shell_split(args.orchestrator.process_wrapper->0@)
            } else if unknown {
                args.failure(sizes) == Some(ConfigError::UnknownDefaultStorageClusterSize)
            } else {
                args.failure(sizes) is None
            }
        }),
{
}

/// Each error is described in its own words, unless it comes with a description.
pub proof fn errors_are_described(err: ConfigError)
    ensures
        match err.description() {
            Some(text) => {
                ||| err is TlsCertWithoutTls && text
                    == "cannot specify --tls-mode=disable and --tls-cert simultaneously"@
                ||| err is TlsKeyWithoutTls && text
                    == "cannot specify --tls-mode=disable and --tls-key simultaneously"@
                ||| err is UnknownDefaultStorageClusterSize && text
                    == "default storage cluster size is unknown"@
            },
            None => err is Jwk || err is CommandWrapper,
        },
{
}

/// Lines follow a text in their order: nothing is added without a line, and one more
/// line comes after all others, on a line of its own.
pub proof fn lines_follow_in_order(text: Seq<char>, lines: Seq<Seq<char>>, line: Seq<char>)
    ensures
        with_lines(text, Seq::empty()) == text,
        with_lines(text, lines.push(line)) == with_lines(text, lines) + "\n"@ + line,
    decreases lines.len(),
{
    reveal_with_fuel(with_lines, 2);
    if lines.len() == 0 {
        assert(lines.push(line).skip(1) == Seq::<Seq<char>>::empty());
    } else {
        lines_follow_in_order(text + "\n"@ + lines[0], lines.skip(1), line);
        assert(lines.push(line).skip(1) == lines.skip(1).push(line));
    }
}

/// The banner names the version, each address beside its own label, and the trace.
pub proof fn banner_labels_its_parts(
    version: Seq<char>,
    addresses: ServerAddresses,
    trace_id: Seq<char>,
)
    ensures
        ({
            let lines = banner_spec(version, addresses, trace_id);
            &&& lines.len() == 6
            &&& lines[0] == "environmentd "@ + version + " listening..."@
            &&& lines[1] == " SQL address: "@ + addresses.sql@
            &&& lines[2] == " HTTP address: "@ + addresses.http@
            &&& lines[3] == " Internal SQL address: "@ + addresses.internal_sql@
            &&& lines[4] == " Internal HTTP address: "@ + addresses.internal_http@
            &&& lines[5] == " Root trace ID: "@ + trace_id
        }),
{
}

/// The plain text of an optional prefix is the text of the prefix.
pub proof fn prefix_text_is_that_of_the_prefix(prefix: AwsExternalIdPrefix)
    ensures
        prefix_view(Some(prefix)) == Some(prefix@),
        prefix_view(None) is None,
{
}

} // verus!
