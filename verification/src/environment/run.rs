//! The stages of starting an environment.
//!
//! Each stage settles what it can from the options and hands on the rest. Between
//! the stages the caller does what was settled: it creates the orchestrator after
//! the second one and reads the sizes of cluster replicas before the last one.

use crate::environment::args::{
    Args, CloudArgs, OrchestratorArgs, OrchestratorKind, StorageArgs,
};
use crate::environment::connections::ConnectionSettings;
use crate::environment::controller::{ControllerSettings, ServerSettings};
use crate::environment::error::ConfigError;
use crate::environment::orchestrator::{
    command_wrapper_spec, KubernetesOrchestratorConfig, ProcessOrchestratorConfig,
};
use std::path::PathBuf;
use vstd::pervasive::unreached;
use vstd::prelude::*;

verus! {

/// How clients connect is settled.
pub struct Connected {
    pub unsafe_mode: bool,
    pub connection: ConnectionSettings,
    pub orchestrator: OrchestratorArgs,
    pub storage: StorageArgs,
    pub adapter_stash_url: String,
    pub cloud: CloudArgs,
}

/// The orchestrator to create.
pub enum OrchestratorConfig {
    Kubernetes(KubernetesOrchestratorConfig),
    Process(ProcessOrchestratorConfig),
}

/// How services are run is settled.
pub struct Orchestrated {
    pub unsafe_mode: bool,
    pub connection: ConnectionSettings,
    /// Whether the orchestrator serves as controller of cloud resources, too.
    pub controls_cloud_resources: bool,
    pub storage: StorageArgs,
    pub adapter_stash_url: String,
    pub cloud: CloudArgs,
}

/// Everything is settled.
pub struct ServePlan {
    pub unsafe_mode: bool,
    pub connection: ConnectionSettings,
    /// Whether the orchestrator serves as controller of cloud resources, too.
    pub controls_cloud_resources: bool,
    pub controller: ControllerSettings,
    pub adapter_stash_url: String,
    pub server: ServerSettings,
}

impl Args {
    /// Whether the first stage hands on these options with the connections settled.
    pub open spec fn gives(self, connected: Connected) -> bool {
        &&& self.connection.gives(connected.connection)
        &&& connected.unsafe_mode == self.unsafe_mode
        &&& connected.orchestrator == self.orchestrator
        &&& connected.storage == self.storage
        &&& connected.adapter_stash_url == self.adapter_stash_url
        &&& connected.cloud == self.cloud
    }

    /// Why the environment cannot be started as these options say, if so, given the
    /// sizes of cluster replicas. What is settled first fails first.
    pub open spec fn failure(self, sizes: Seq<String>) -> Option<ConfigError> {
        if self.connection.failure() is Some {
            self.connection.failure()
        } else if self.orchestrator.orchestrator is Process && command_wrapper_spec(
            self.orchestrator.process_wrapper,
        ) is Err {
            Some(command_wrapper_spec(self.orchestrator.process_wrapper)->Err_0)
        } else if !self.cloud.default_size_exists(sizes) {
            Some(ConfigError::UnknownDefaultStorageClusterSize)
        } else {
            None
        }
    }

    /// Settles how clients connect.
    pub fn connect(self) -> (connected: Result<Connected, ConfigError>)
        requires
            self.connection.well_formed(),
        ensures
            match connected {
                Ok(connected) => self.connection.failure() is None && self.gives(connected),
                Err(err) => self.connection.failure() == Some(err),
            },
    {
        let connection = match self.connection.configure() {
            Ok(connection) => connection,
            Err(err) => return Err(err),
        };
        Ok(
            Connected {
                unsafe_mode: self.unsafe_mode,
                connection,
                orchestrator: self.orchestrator,
                storage: self.storage,
                adapter_stash_url: self.adapter_stash_url,
                cloud: self.cloud,
            },
        )
    }
}

impl Connected {
    /// Whether the options ask for this orchestrator.
    pub open spec fn gives_orchestrator(
        self,
        image_dir: Option<PathBuf>,
        config: OrchestratorConfig,
    ) -> bool {
        match self.orchestrator.orchestrator {
            OrchestratorKind::Kubernetes => config is Kubernetes
                && self.orchestrator.gives_kubernetes(
                self.cloud.aws_external_id_prefix,
                config->Kubernetes_0,
            ),
            OrchestratorKind::Process => config is Process && self.orchestrator.gives_process(
                image_dir->0,
                self.cloud.environment_id@,
                config->Process_0,
            ),
        }
    }

    /// Whether the second stage hands on these options with the orchestrator settled.
    pub open spec fn gives(self, orchestrated: Orchestrated) -> bool {
        &&& orchestrated.storage == self.storage
        &&& orchestrated.controls_cloud_resources == (self.orchestrator.orchestrator is Kubernetes)
        &&& orchestrated.unsafe_mode == self.unsafe_mode
        &&& orchestrated.connection == self.connection
        &&& orchestrated.adapter_stash_url == self.adapter_stash_url
        &&& orchestrated.cloud == self.cloud
    }

    /// Whether the next stage needs to know where the running binary is.
    pub fn needs_image_dir(&self) -> (result: bool)
        ensures
            result == (self.orchestrator.orchestrator is Process),
    {
        match self.orchestrator.orchestrator {
            OrchestratorKind::Kubernetes => false,
            OrchestratorKind::Process => true,
        }
    }

    /// Settles how services are run.
    pub fn orchestrate(self, image_dir: Option<PathBuf>) -> (result: Result<
        (OrchestratorConfig, Orchestrated),
        ConfigError,
    >)
        requires
            self.orchestrator.well_formed(),
            self.orchestrator.orchestrator is Process ==> image_dir is Some,
        ensures
            match result {
                Ok((config, orchestrated)) => {
                    &&& self.gives_orchestrator(image_dir, config)
                    &&& self.gives(orchestrated)
                },
                Err(err) => {
                    &&& self.orchestrator.orchestrator is Process
                    &&& command_wrapper_spec(self.orchestrator.process_wrapper) == Err::<
                        Seq<Seq<char>>,
                        ConfigError,
                    >(err)
                },
            },
    {
        let controls_cloud_resources = self.orchestrator.orchestrator.controls_cloud_resources();
        let config = match self.orchestrator.orchestrator {
            OrchestratorKind::Kubernetes => OrchestratorConfig::Kubernetes(
                self.orchestrator.kubernetes(&self.cloud.aws_external_id_prefix),
            ),
            OrchestratorKind::Process => {
                let image_dir = match image_dir {
                    Some(image_dir) => image_dir,
                    None => unreached(),
                };
                match self.orchestrator.process(image_dir, &self.cloud.environment_id) {
                    Ok(config) => OrchestratorConfig::Process(config),
                    Err(err) => return Err(err),
                }
            },
        };
        let orchestrated = Orchestrated {
            unsafe_mode: self.unsafe_mode,
            connection: self.connection,
            controls_cloud_resources,
            storage: self.storage,
            adapter_stash_url: self.adapter_stash_url,
            cloud: self.cloud,
        };
        Ok((config, orchestrated))
    }
}

impl Orchestrated {
    /// Whether the last stage settles the controller and the server with what was
    /// settled before.
    pub open spec fn gives(self, plan: ServePlan) -> bool {
        &&& self.storage.gives(plan.controller)
        &&& self.cloud.gives(plan.server)
        &&& plan.unsafe_mode == self.unsafe_mode
        &&& plan.connection == self.connection
        &&& plan.controls_cloud_resources == self.controls_cloud_resources
        &&& plan.adapter_stash_url == self.adapter_stash_url
    }

    /// Settles what the controller and the server are started with, given the names
    /// of the sizes of cluster replicas.
    pub fn serve(self, cluster_replica_sizes: &Vec<String>) -> (plan: Result<ServePlan, ConfigError>)
        requires
            self.storage.well_formed(),
        ensures
            match plan {
                Ok(plan) => self.cloud.default_size_exists(cluster_replica_sizes@) && self.gives(
                    plan,
                ),
                Err(err) => !self.cloud.default_size_exists(cluster_replica_sizes@) && err
                    == ConfigError::UnknownDefaultStorageClusterSize,
            },
    {
        let controller = self.storage.controller();
        let server = match self.cloud.server(cluster_replica_sizes) {
            Ok(server) => server,
            Err(err) => return Err(err),
        };
        Ok(
            ServePlan {
                unsafe_mode: self.unsafe_mode,
                connection: self.connection,
                controls_cloud_resources: self.controls_cloud_resources,
                controller,
                adapter_stash_url: self.adapter_stash_url,
                server,
            },
        )
    }
}

/// Where the three stages get to the end, nothing is wrong with the options. The
/// plan is then what the options say, and the orchestrator the one they ask for.
pub proof fn stages_follow_options(
    args: Args,
    connected: Connected,
    image_dir: Option<PathBuf>,
    config: OrchestratorConfig,
    orchestrated: Orchestrated,
    plan: ServePlan,
    sizes: Seq<String>,
)
    requires
        args.connection.failure() is None,
        args.gives(connected),
        connected.gives_orchestrator(image_dir, config),
        connected.gives(orchestrated),
        orchestrated.cloud.default_size_exists(sizes),
        orchestrated.gives(plan),
    ensures
        args.failure(sizes) is None,
        plan.unsafe_mode == args.unsafe_mode,
        plan.adapter_stash_url == args.adapter_stash_url,
        args.connection.gives(plan.connection),
        args.storage.gives(plan.controller),
        args.cloud.gives(plan.server),
        plan.controls_cloud_resources == (args.orchestrator.orchestrator is Kubernetes),
        match args.orchestrator.orchestrator {
            OrchestratorKind::Kubernetes => config is Kubernetes
                && args.orchestrator.gives_kubernetes(
                args.cloud.aws_external_id_prefix,
                config->Kubernetes_0,
            ),
            OrchestratorKind::Process => config is Process && args.orchestrator.gives_process(
                image_dir->0,
                args.cloud.environment_id@,
                config->Process_0,
            ),
        },
{
}

/// Where the connections cannot be settled, that is what is wrong with the options,
/// whatever else is.
pub proof fn connections_fail_first(args: Args, sizes: Seq<String>)
    requires
        args.connection.failure() is Some,
    ensures
        args.failure(sizes) == args.connection.failure(),
{
}

/// Once the connections are settled, the error of the later stage that fails is
/// what is wrong with the options.
pub proof fn later_errors_are_failures(
    args: Args,
    connected: Connected,
    orchestrated: Orchestrated,
    sizes: Seq<String>,
)
    requires
        args.gives(connected),
        connected.gives(orchestrated),
    ensures
        ({
            let wrapper = command_wrapper_spec(connected.orchestrator.process_wrapper);
            let process = connected.orchestrator.orchestrator is Process;
            if process && wrapper is Err {
                args.failure(sizes) == Some(wrapper->Err_0)
            } else if !orchestrated.cloud.default_size_exists(sizes) {
                args.failure(sizes) == Some(ConfigError::UnknownDefaultStorageClusterSize)
            } else {
                args.failure(sizes) is None
            }
        }),
{
}

} // verus!
