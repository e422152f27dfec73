//! How services are run.

use crate::aws::types::AwsExternalIdPrefix;
use crate::environment::args::{
    IpAddress, KubernetesImagePullPolicy, OrchestratorArgs, OrchestratorKind,
};
use crate::environment::error::ConfigError;
use crate::outside::{shell_split, split_words};
use crate::string_map::{argument_map, StringMap};
use std::path::PathBuf;
use vstd::pervasive::unreached;
use vstd::prelude::*;

verus! {

/// How to run services on Kubernetes.
pub struct KubernetesOrchestratorConfig {
    pub context: String,
    pub scheduler_name: Option<String>,
    pub service_labels: StringMap,
    pub service_node_selector: StringMap,
    pub service_account: Option<String>,
    pub image_pull_policy: KubernetesImagePullPolicy,
    pub aws_external_id_prefix: Option<AwsExternalIdPrefix>,
}

/// How to run services as child processes.
pub struct ProcessOrchestratorConfig {
    /// Where the binaries of services are.
    pub image_dir: PathBuf,
    pub suppress_output: bool,
    pub environment_id: String,
    pub secrets_dir: PathBuf,
    /// The words to put before each command.
    pub command_wrapper: Vec<String>,
    pub propagate_crashes: bool,
    pub tcp_proxy: Option<ProcessOrchestratorTcpProxyConfig>,
}

/// How to bind TCP proxies for Unix domain sockets.
pub struct ProcessOrchestratorTcpProxyConfig {
    pub listen_addr: IpAddress,
    pub prometheus_service_discovery_dir: Option<PathBuf>,
}

/// The text of an optional prefix.
pub open spec fn prefix_view(prefix: Option<AwsExternalIdPrefix>) -> Option<Seq<char>> {
    match prefix {
        Some(prefix) => Some(prefix@),
        None => None,
    }
}

impl OrchestratorKind {
    /// What to put before each line of the log: the process orchestrator mingles
    /// the logs of all services, so there the line names its service.
    pub fn log_prefix(&self) -> (prefix: Option<String>)
        ensures
            match self {
                OrchestratorKind::Process => prefix.deep_view() == Some("environmentd"@),
                OrchestratorKind::Kubernetes => prefix is None,
            },
    {
        match self {
            OrchestratorKind::Process => Some("environmentd".to_owned()),
            OrchestratorKind::Kubernetes => None,
        }
    }

    /// Whether the orchestrator manages resources of a cloud provider, too.
    pub fn controls_cloud_resources(&self) -> (result: bool)
        ensures
            result == (self is Kubernetes),
    {
        match self {
            OrchestratorKind::Kubernetes => true,
            OrchestratorKind::Process => false,
        }
    }
}

/// The words to put before each command, or the error for a line that has none.
pub open spec fn command_wrapper_spec(wrapper: Option<String>) -> Result<
    Seq<Seq<char>>,
    ConfigError,
> {
    match wrapper {
        Some(line) => match shell_split(line@) {
            Ok(words) => Ok(words),
            Err(err) => Err(ConfigError::CommandWrapper(err)),
        },
        None => Ok(Seq::empty()),
    }
}

/// Splits the option for the command wrapper into words.
pub fn command_wrapper(wrapper: &Option<String>) -> (words: Result<Vec<String>, ConfigError>)
    ensures
        match words {
            Ok(words) => command_wrapper_spec(*wrapper) == Ok::<Seq<Seq<char>>, ConfigError>(
                words.deep_view(),
            ),
            Err(err) => command_wrapper_spec(*wrapper) == Err::<Seq<Seq<char>>, ConfigError>(err),
        },
{
    match wrapper {
        Some(line) => split_result(split_words(line.as_str())),
        None => {
            let words: Vec<String> = Vec::new();
            assert(words.deep_view() == Seq::<Seq<char>>::empty());
            Ok(words)
        },
    }
}

/// The words of the command wrapper, or the error for a line that has none.
pub fn split_result(words: Result<Vec<String>, shell_words::ParseError>) -> (result: Result<
    Vec<String>,
    ConfigError,
>)
    ensures
        result == match words {
            Ok(words) => Ok::<Vec<String>, ConfigError>(words),
            Err(err) => Err::<Vec<String>, ConfigError>(ConfigError::CommandWrapper(err)),
        },
{
    match words {
        Ok(words) => Ok(words),
        Err(err) => Err(ConfigError::CommandWrapper(err)),
    }
}

impl OrchestratorArgs {
    /// What the command line parser sees to: the process orchestrator has a place
    /// for secrets.
    pub open spec fn well_formed(self) -> bool {
        self.orchestrator is Process ==> self.process_secrets_directory is Some
    }

    /// Checks what the command line parser sees to.
    pub fn is_well_formed(&self) -> (result: bool)
        ensures
            result == self.well_formed(),
    {
        match self.orchestrator {
            OrchestratorKind::Process => self.process_secrets_directory.is_some(),
            OrchestratorKind::Kubernetes => true,
        }
    }

    /// Whether services are run on Kubernetes as these options say.
    pub open spec fn gives_kubernetes(
        self,
        aws_external_id_prefix: Option<AwsExternalIdPrefix>,
        config: KubernetesOrchestratorConfig,
    ) -> bool {
        &&& config.context == self.kubernetes_context
        &&& config.scheduler_name == self.kubernetes_scheduler_name
        &&& config.service_labels@ == argument_map(self.kubernetes_service_label@)
        &&& config.service_node_selector@ == argument_map(self.kubernetes_service_node_selector@)
        &&& config.service_account == self.kubernetes_service_account
        &&& config.image_pull_policy == self.kubernetes_image_pull_policy
        &&& prefix_view(config.aws_external_id_prefix) == prefix_view(aws_external_id_prefix)
    }

    /// Configures the Kubernetes orchestrator.
    pub fn kubernetes(self, aws_external_id_prefix: &Option<AwsExternalIdPrefix>) -> (config:
        KubernetesOrchestratorConfig)
        ensures
            self.gives_kubernetes(*aws_external_id_prefix, config),
    {
        let aws_external_id_prefix = match aws_external_id_prefix {
            Some(prefix) => Some(
                AwsExternalIdPrefix::new_from_cli_argument_or_environment_variable(prefix.as_str()),
            ),
            None => None,
        };
        KubernetesOrchestratorConfig {
            context: self.kubernetes_context,
            scheduler_name: self.kubernetes_scheduler_name,
            service_labels: StringMap::from_args(self.kubernetes_service_label),
            service_node_selector: StringMap::from_args(self.kubernetes_service_node_selector),
            service_account: self.kubernetes_service_account,
            image_pull_policy: self.kubernetes_image_pull_policy,
            aws_external_id_prefix,
        }
    }

    /// The proxies that the process orchestrator binds: none without an address,
    /// whatever is said of service discovery.
    pub open spec fn tcp_proxy_spec(self) -> Option<ProcessOrchestratorTcpProxyConfig> {
        match self.process_tcp_proxy_listen_addr {
            Some(listen_addr) => Some(
                ProcessOrchestratorTcpProxyConfig {
                    listen_addr,
                    prometheus_service_discovery_dir:
                        self.process_prometheus_service_discovery_directory,
                },
            ),
            None => None,
        }
    }

    /// Whether services are run as child processes as these options say.
    pub open spec fn gives_process(
        self,
        image_dir: PathBuf,
        environment_id: Seq<char>,
        config: ProcessOrchestratorConfig,
    ) -> bool {
        &&& config.image_dir == image_dir
        &&& !config.suppress_output
        &&& config.environment_id@ == environment_id
        &&& self.process_secrets_directory == Some(config.secrets_dir)
        &&& command_wrapper_spec(self.process_wrapper) == Ok::<Seq<Seq<char>>, ConfigError>(
            config.command_wrapper.deep_view(),
        )
        &&& config.propagate_crashes == self.process_propagate_crashes
        &&& config.tcp_proxy == self.tcp_proxy_spec()
    }

    /// Configures the process orchestrator, given where the running binary is.
    pub fn process(self, image_dir: PathBuf, environment_id: &String) -> (config: Result<
        ProcessOrchestratorConfig,
        ConfigError,
    >)
        requires
            self.well_formed(),
            self.orchestrator is Process,
        ensures
            match config {
                Ok(config) => self.gives_process(image_dir, environment_id@, config),
                Err(err) => command_wrapper_spec(self.process_wrapper) == Err::<
                    Seq<Seq<char>>,
                    ConfigError,
                >(err),
            },
    {
        let command_wrapper = match command_wrapper(&self.process_wrapper) {
            Ok(words) => words,
            Err(err) => return Err(err),
        };
        let secrets_dir = match self.process_secrets_directory {
            Some(secrets_dir) => secrets_dir,
            None => unreached(),
        };
        let tcp_proxy = match self.process_tcp_proxy_listen_addr {
            Some(listen_addr) => Some(
                ProcessOrchestratorTcpProxyConfig {
                    listen_addr,
                    prometheus_service_discovery_dir:
                        self.process_prometheus_service_discovery_directory,
                },
            ),
            None => None,
        };
        Ok(
            ProcessOrchestratorConfig {
                image_dir,
                suppress_output: false,
                environment_id: environment_id.clone(),
                secrets_dir,
                command_wrapper,
                propagate_crashes: self.process_propagate_crashes,
                tcp_proxy,
            },
        )
    }
}

} // verus!
