use environmentd::aws::types::AwsExternalIdPrefix;
use environmentd::environment::args::{
    Args, CloudArgs, ConnectionArgs, IpAddress, KubernetesImagePullPolicy, ListenAddress,
    OrchestratorArgs, OrchestratorKind, StorageArgs,
};
use environmentd::environment::connections::{
    allowed_origins, decoding_key, frontegg_config, pem_document, TlsMode,
};
use environmentd::environment::error::ConfigError;
use environmentd::environment::orchestrator::command_wrapper;
use environmentd::environment::startup::{
    banner, build_info, long_version, thread_name, useful_cpus, worker_threads, Metrics,
    ServerAddresses,
};
use environmentd::environment::run::{OrchestratorConfig, ServePlan};
use environmentd::string_map::KeyValueArg;
use std::path::PathBuf;
use std::time::Duration;
use url::Url;
use uuid::Uuid;

const PEM: &str =
    "-----BEGIN RSA PUBLIC KEY-----\nMAYCAQ8CAQM=\n-----END RSA PUBLIC KEY-----\n";

const ENCODED_PEM: &str = "LS0tLS1CRUdJTiBSU0EgUFVCTElDIEtFWS0tLS0tCk1BWUNBUThDQVFNPQotLS0tLUVORCBSU0EgUFVCTElDIEtFWS0tLS0tCg==";

fn connection_args() -> ConnectionArgs {
    let addr = |port: u16| ListenAddress::V4 { ip: 0x7f00_0001, port };
    ConnectionArgs {
        sql_listen_addr: addr(6875),
        http_listen_addr: addr(6876),
        internal_sql_listen_addr: addr(6877),
        internal_http_listen_addr: addr(6878),
        cors_allowed_origin: vec![],
        tls_mode: "disable".to_string(),
        tls_cert: None,
        tls_key: None,
        frontegg_tenant: None,
        frontegg_jwk: None,
        frontegg_api_token_url: None,
        frontegg_admin_role: None,
    }
}

fn frontegg_args(jwk: &str) -> ConnectionArgs {
    ConnectionArgs {
        frontegg_tenant: Some(Uuid::from_u128(17)),
        frontegg_jwk: Some(jwk.to_string()),
        frontegg_api_token_url: Some("https://tokens".to_string()),
        frontegg_admin_role: Some("admin".to_string()),
        ..connection_args()
    }
}

fn key_value(key: &str, value: &str) -> KeyValueArg {
    KeyValueArg { key: key.to_string(), value: value.to_string() }
}

fn orchestrator_args(orchestrator: OrchestratorKind) -> OrchestratorArgs {
    OrchestratorArgs {
        orchestrator,
        kubernetes_scheduler_name: Some("scheduler".to_string()),
        kubernetes_service_label: vec![key_value("app", "one"), key_value("app", "two")],
        kubernetes_service_node_selector: vec![key_value("disk", "ssd")],
        kubernetes_service_account: None,
        kubernetes_context: "minikube".to_string(),
        kubernetes_image_pull_policy: KubernetesImagePullPolicy::Always,
        process_wrapper: None,
        process_secrets_directory: Some(PathBuf::from("/secrets")),
        process_propagate_crashes: true,
        process_tcp_proxy_listen_addr: None,
        process_prometheus_service_discovery_directory: Some(PathBuf::from("/discovery")),
    }
}

fn storage_args() -> StorageArgs {
    StorageArgs {
        persist_blob_url: Url::parse("file:///blob").unwrap(),
        persist_consensus_url: Url::parse("HTTP://Consensus:80").unwrap(),
        storage_stash_url: "postgres://stash".to_string(),
        clusterd_image: Some("clusterd".to_string()),
        kubernetes_init_container_image: None,
    }
}

fn cloud_args(default_size: Option<&str>) -> CloudArgs {
    CloudArgs {
        environment_id: "local-az1-org-0".to_string(),
        aws_external_id_prefix: Some(
            AwsExternalIdPrefix::new_from_cli_argument_or_environment_variable("prefix"),
        ),
        availability_zone: vec!["az1".to_string()],
        bootstrap_default_cluster_replica_size: "1".to_string(),
        bootstrap_builtin_cluster_replica_size: "2".to_string(),
        bootstrap_system_parameter: vec![key_value("p", "q")],
        default_storage_host_size: default_size.map(|s| s.to_string()),
        storage_usage_collection_interval: Duration::from_secs(3600),
        storage_usage_retention_period: None,
        segment_api_key: None,
        announce_egress_ip: vec![1, 2],
        launchdarkly_sdk_key: None,
        launchdarkly_key_map: vec![],
        config_sync_loop_interval: None,
        aws_account_id: Some("123456789000".to_string()),
        aws_privatelink_availability_zones: None,
    }
}

#[test]
fn tls_is_off_when_disabled() {
    let settings = connection_args().configure().ok().unwrap();
    assert!(settings.tls.is_none());
    assert!(settings.frontegg.is_none());
    assert_eq!(settings.sql_listen_addr.port(), 6875);
    assert_eq!(settings.internal_http_listen_addr.port(), 6878);
}

#[test]
fn tls_files_contradict_disabled_tls() {
    let mut args = connection_args();
    args.tls_key = Some(PathBuf::from("key"));
    match args.configure() {
        Err(err @ ConfigError::TlsKeyWithoutTls) => assert_eq!(
            err.message(),
            Some("cannot specify --tls-mode=disable and --tls-key simultaneously")
        ),
        _ => panic!("expected an error"),
    }
    let mut args = frontegg_args("no key");
    args.tls_cert = Some(PathBuf::from("cert"));
    args.tls_key = Some(PathBuf::from("key"));
    match args.configure() {
        Err(err @ ConfigError::TlsCertWithoutTls) => assert_eq!(
            err.message(),
            Some("cannot specify --tls-mode=disable and --tls-cert simultaneously")
        ),
        _ => panic!("expected an error"),
    }
}

#[test]
fn tls_is_required_with_its_files() {
    let mut args = connection_args();
    args.tls_mode = "require".to_string();
    assert!(!args.is_well_formed());
    args.tls_cert = Some(PathBuf::from("cert"));
    args.tls_key = Some(PathBuf::from("key"));
    assert!(args.is_well_formed());
    let tls = args.configure().ok().unwrap().tls.unwrap();
    assert_eq!(tls.mode, TlsMode::Require);
    assert_eq!(tls.cert, PathBuf::from("cert"));
    assert_eq!(tls.key, PathBuf::from("key"));
}

#[test]
fn unknown_tls_mode_is_ill_formed() {
    let mut args = connection_args();
    args.tls_mode = "prefer".to_string();
    args.tls_cert = Some(PathBuf::from("cert"));
    args.tls_key = Some(PathBuf::from("key"));
    assert!(!args.is_well_formed());
}

#[test]
fn frontegg_options_come_together() {
    assert!(frontegg_args(PEM).is_well_formed());
    let mut args = frontegg_args(PEM);
    args.frontegg_admin_role = None;
    assert!(!args.is_well_formed());
    let mut args = connection_args();
    args.frontegg_jwk = Some(PEM.to_string());
    assert!(!args.is_well_formed());
}

#[test]
fn frontegg_takes_plain_and_encoded_keys() {
    for jwk in [PEM, ENCODED_PEM, ENCODED_PEM.trim_end_matches('=')] {
        assert_eq!(pem_document(jwk), PEM.as_bytes());
        assert!(decoding_key(jwk).is_ok());
        let frontegg = frontegg_args(jwk)
            .configure()
            .ok()
            .unwrap()
            .frontegg
            .unwrap();
        assert_eq!(frontegg.tenant_id, Uuid::from_u128(17));
        assert_eq!(frontegg.admin_api_token_url, "https://tokens");
        assert_eq!(frontegg.admin_role, "admin");
        assert_eq!(frontegg.refresh_before_secs, 60);
    }
}

#[test]
fn frontegg_reports_unreadable_keys() {
    for jwk in ["", "no key", "bm8ga2V5"] {
        assert!(decoding_key(jwk).is_err());
        match frontegg_args(jwk).configure() {
            Err(err @ ConfigError::Jwk(_)) => assert_eq!(err.message(), None),
            _ => panic!("expected an error"),
        }
    }
    let err = decoding_key("no key");
    let config = frontegg_config(Uuid::from_u128(1), "url".to_string(), "role".to_string(), err);
    assert!(matches!(config, Err(ConfigError::Jwk(_))));
}

#[test]
fn local_origins_are_allowed_by_default() {
    let origins = allowed_origins(vec![], 6876);
    let expected = [
        "http://localhost:6876",
        "http://127.0.0.1:6876",
        "http://[::1]:6876",
        "https://localhost:6876",
        "https://127.0.0.1:6876",
        "https://[::1]:6876",
    ];
    assert_eq!(origins.len(), expected.len());
    for (origin, expected) in origins.iter().zip(expected.iter()) {
        assert_eq!(origin.to_str().unwrap(), *expected);
    }
}

#[test]
fn configured_origins_replace_the_default() {
    let origin = http::header::HeaderValue::from_static("https://example.com");
    assert_eq!(allowed_origins(vec![origin.clone()], 1), vec![origin]);
    let mut args = connection_args();
    args.http_listen_addr = ListenAddress::V6 { ip: 1, port: 0, flowinfo: 0, scope_id: 0 };
    let origins = args.configure().ok().unwrap().allowed_origins;
    assert_eq!(origins[5].to_str().unwrap(), "https://[::1]:0");
}

#[test]
fn log_is_prefixed_for_the_process_orchestrator() {
    assert_eq!(
        OrchestratorKind::Process.log_prefix(),
        Some("environmentd".to_string())
    );
    assert_eq!(OrchestratorKind::Kubernetes.log_prefix(), None);
}

#[test]
fn only_kubernetes_controls_cloud_resources() {
    assert!(OrchestratorKind::Kubernetes.controls_cloud_resources());
    assert!(!OrchestratorKind::Process.controls_cloud_resources());
}

#[test]
fn kubernetes_is_configured() {
    let prefix = Some(AwsExternalIdPrefix::new_from_cli_argument_or_environment_variable("p"));
    let config = orchestrator_args(OrchestratorKind::Kubernetes).kubernetes(&prefix);
    assert_eq!(config.context, "minikube");
    assert_eq!(config.scheduler_name, Some("scheduler".to_string()));
    assert_eq!(
        config.service_labels.into_entries(),
        vec![("app".to_string(), "two".to_string())]
    );
    assert_eq!(
        config.service_node_selector.get(&"disk".to_string()),
        Some(&"ssd".to_string())
    );
    assert_eq!(config.service_account, None);
    assert_eq!(config.image_pull_policy, KubernetesImagePullPolicy::Always);
    assert_eq!(config.aws_external_id_prefix, prefix);
}

#[test]
fn processes_are_configured() {
    let mut args = orchestrator_args(OrchestratorKind::Process);
    args.process_wrapper = Some("valgrind --log-file='a b' -q".to_string());
    args.process_tcp_proxy_listen_addr = Some(IpAddress::V4(0x7f00_0001));
    let config = args
        .process(PathBuf::from("/bin"), &"env".to_string())
        .ok()
        .unwrap();
    assert_eq!(config.image_dir, PathBuf::from("/bin"));
    assert!(!config.suppress_output);
    assert_eq!(config.environment_id, "env");
    assert_eq!(config.secrets_dir, PathBuf::from("/secrets"));
    assert_eq!(config.command_wrapper, vec!["valgrind", "--log-file=a b", "-q"]);
    assert!(config.propagate_crashes);
    let proxy = config.tcp_proxy.unwrap();
    assert_eq!(proxy.listen_addr, IpAddress::V4(0x7f00_0001));
    assert_eq!(
        proxy.prometheus_service_discovery_dir,
        Some(PathBuf::from("/discovery"))
    );
}

#[test]
fn service_discovery_is_ignored_without_proxy() {
    let config = orchestrator_args(OrchestratorKind::Process)
        .process(PathBuf::from("/bin"), &"env".to_string())
        .ok()
        .unwrap();
    assert!(config.tcp_proxy.is_none());
    assert!(config.command_wrapper.is_empty());
}

#[test]
fn open_quote_in_wrapper_is_reported() {
    let mut args = orchestrator_args(OrchestratorKind::Process);
    args.process_wrapper = Some("sh -c 'open".to_string());
    match args.process(PathBuf::from("/bin"), &"env".to_string()) {
        Err(err @ ConfigError::CommandWrapper(_)) => assert_eq!(err.message(), None),
        _ => panic!("expected an error"),
    }
    assert!(command_wrapper(&Some("\"".to_string())).is_err());
}

#[test]
fn process_orchestrator_needs_place_for_secrets() {
    let mut args = orchestrator_args(OrchestratorKind::Process);
    args.process_secrets_directory = None;
    assert!(!args.is_well_formed());
    args.orchestrator = OrchestratorKind::Kubernetes;
    assert!(args.is_well_formed());
}

#[test]
fn controller_is_configured() {
    let settings = storage_args().controller();
    assert_eq!(settings.persist_location.blob_uri, "file:///blob");
    assert_eq!(settings.persist_location.consensus_uri, "http://consensus/");
    assert_eq!(settings.storage_stash_url, "postgres://stash");
    assert_eq!(settings.clusterd_image, "clusterd");
    assert_eq!(settings.init_container_image, None);
}

#[test]
fn default_storage_size_must_exist() {
    let sizes = vec!["1".to_string(), "2-4".to_string()];
    assert!(cloud_args(None).server(&vec![]).is_ok());
    let settings = cloud_args(Some("2-4")).server(&sizes).ok().unwrap();
    assert_eq!(settings.default_storage_cluster_size, Some("2-4".to_string()));
    assert_eq!(
        settings.bootstrap_system_parameters.get(&"p".to_string()),
        Some(&"q".to_string())
    );
    assert_eq!(settings.egress_ips, vec![1, 2]);
    match cloud_args(Some("3")).server(&sizes) {
        Err(err @ ConfigError::UnknownDefaultStorageClusterSize) => {
            assert_eq!(err.message(), Some("default storage cluster size is unknown"))
        }
        _ => panic!("expected an error"),
    }
}

fn args(orchestrator: OrchestratorKind) -> Args {
    Args {
        unsafe_mode: true,
        connection: connection_args(),
        orchestrator: orchestrator_args(orchestrator),
        storage: storage_args(),
        adapter_stash_url: "postgres://adapter".to_string(),
        cloud: cloud_args(Some("1")),
    }
}

#[test]
fn controller_needs_image() {
    let mut args = storage_args();
    assert!(args.is_well_formed());
    args.clusterd_image = None;
    assert!(!args.is_well_formed());
}

fn check_plan(plan: ServePlan) {
    assert!(plan.unsafe_mode);
    assert_eq!(plan.adapter_stash_url, "postgres://adapter");
    assert_eq!(plan.connection.http_listen_addr.port(), 6876);
    assert_eq!(plan.connection.allowed_origins.len(), 6);
    assert_eq!(plan.controller.clusterd_image, "clusterd");
    assert_eq!(plan.server.environment_id, "local-az1-org-0");
    assert_eq!(
        plan.server.default_storage_cluster_size,
        Some("1".to_string())
    );
}

#[test]
fn stages_plan_kubernetes() {
    let connected = args(OrchestratorKind::Kubernetes).connect().ok().unwrap();
    assert!(!connected.needs_image_dir());
    let (config, orchestrated) = connected.orchestrate(None).ok().unwrap();
    match config {
        OrchestratorConfig::Kubernetes(config) => {
            assert_eq!(config.context, "minikube");
            assert_eq!(config.aws_external_id_prefix.unwrap().as_str(), "prefix");
        }
        OrchestratorConfig::Process(_) => panic!("expected Kubernetes"),
    }
    let plan = orchestrated.serve(&vec!["1".to_string()]).ok().unwrap();
    assert!(plan.controls_cloud_resources);
    check_plan(plan);
}

#[test]
fn stages_plan_processes() {
    let connected = args(OrchestratorKind::Process).connect().ok().unwrap();
    assert!(connected.needs_image_dir());
    let (config, orchestrated) = connected
        .orchestrate(Some(PathBuf::from("/bin")))
        .ok()
        .unwrap();
    match config {
        OrchestratorConfig::Process(config) => {
            assert_eq!(config.image_dir, PathBuf::from("/bin"));
            assert_eq!(config.environment_id, "local-az1-org-0");
        }
        OrchestratorConfig::Kubernetes(_) => panic!("expected processes"),
    }
    let plan = orchestrated.serve(&vec!["1".to_string()]).ok().unwrap();
    assert!(!plan.controls_cloud_resources);
    check_plan(plan);
}

#[test]
fn stages_fail_in_turn() {
    let mut all_wrong = args(OrchestratorKind::Process);
    all_wrong.connection.tls_cert = Some(PathBuf::from("cert"));
    all_wrong.connection.frontegg_jwk = Some(PEM.to_string());
    all_wrong.orchestrator.process_wrapper = Some("'".to_string());
    all_wrong.orchestrator.process_secrets_directory = None;
    all_wrong.storage.clusterd_image = None;
    assert!(all_wrong.connection.is_well_formed());
    assert!(matches!(
        all_wrong.connect(),
        Err(ConfigError::TlsCertWithoutTls)
    ));

    let mut open_quote = args(OrchestratorKind::Process);
    open_quote.orchestrator.process_wrapper = Some("'".to_string());
    open_quote.storage.clusterd_image = None;
    let connected = open_quote.connect().ok().unwrap();
    assert!(matches!(
        connected.orchestrate(Some(PathBuf::from("/bin"))),
        Err(ConfigError::CommandWrapper(_))
    ));

    let mut unused_wrapper = args(OrchestratorKind::Kubernetes);
    unused_wrapper.orchestrator.process_wrapper = Some("'".to_string());
    let connected = unused_wrapper.connect().ok().unwrap();
    let (_, orchestrated) = connected.orchestrate(None).ok().unwrap();
    assert!(matches!(
        orchestrated.serve(&vec!["2".to_string()]),
        Err(ConfigError::UnknownDefaultStorageClusterSize)
    ));
}

#[test]
fn worker_threads_use_cores_at_hand() {
    assert_eq!(useful_cpus(8, 4), 4);
    assert_eq!(useful_cpus(2, 4), 2);
    assert_eq!(useful_cpus(0, 4), 1);
    assert_eq!(useful_cpus(4, 0), 1);
    assert_eq!(
        worker_threads(),
        useful_cpus(num_cpus::get(), num_cpus::get_physical())
    );
}

#[test]
fn worker_threads_are_named() {
    assert_eq!(thread_name(0), "tokio:work-0");
    assert_eq!(thread_name(9999), "tokio:work-9999");
    assert_eq!(thread_name(9999).len(), 15);
}

#[test]
fn versions_are_listed() {
    let info = build_info("OpenSSL 3.0".to_string(), "2.3.0");
    assert_eq!(info, vec!["OpenSSL 3.0", "librdkafka v2.3.0"]);
    assert_eq!(
        long_version("v0.1".to_string(), &info),
        "v0.1\nOpenSSL 3.0\nlibrdkafka v2.3.0"
    );
    assert_eq!(long_version("v0.1".to_string(), &vec![]), "v0.1");
}

#[test]
fn start_time_is_reported() {
    let metric = Metrics::start_time_environmentd();
    assert_eq!(metric.name, "mz_start_time_environmentd");
    assert_eq!(
        metric.help,
        "Time in milliseconds from environmentd start until the adapter is ready."
    );
    assert_eq!(Metrics::start_time_value(1234), 1234);
}

#[test]
fn banner_names_addresses() {
    let addresses = ServerAddresses {
        sql: "127.0.0.1:6875".to_string(),
        http: "127.0.0.1:6876".to_string(),
        internal_sql: "127.0.0.1:6877".to_string(),
        internal_http: "127.0.0.1:6878".to_string(),
    };
    assert_eq!(
        banner("v0.1", &addresses, "abc"),
        vec![
            "environmentd v0.1 listening...",
            " SQL address: 127.0.0.1:6875",
            " HTTP address: 127.0.0.1:6876",
            " Internal SQL address: 127.0.0.1:6877",
            " Internal HTTP address: 127.0.0.1:6878",
            " Root trace ID: abc",
        ]
    );
}
