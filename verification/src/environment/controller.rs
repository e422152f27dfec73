//! What the controller and the server are started with.

use crate::aws::types::AwsExternalIdPrefix;
use crate::environment::args::{CloudArgs, StorageArgs};
use crate::environment::error::ConfigError;
use crate::outside::{url_text, url_to_string};
use crate::string_map::{argument_map, StringMap};
use std::time::Duration;
use vstd::pervasive::unreached;
use vstd::prelude::*;

verus! {

/// Where the persist library keeps its data.
pub struct PersistLocation {
    pub blob_uri: String,
    pub consensus_uri: String,
}

/// What the controller is started with.
pub struct ControllerSettings {
    pub persist_location: PersistLocation,
    pub storage_stash_url: String,
    pub clusterd_image: String,
    pub init_container_image: Option<String>,
}

impl StorageArgs {
    /// What the command line parser sees to: there is an image for clusters.
    pub open spec fn well_formed(self) -> bool {
        self.clusterd_image is Some
    }

    /// Checks what the command line parser sees to.
    pub fn is_well_formed(&self) -> (result: bool)
        ensures
            result == self.well_formed(),
    {
        self.clusterd_image.is_some()
    }

    /// Whether the controller is started as these options say.
    pub open spec fn gives(self, settings: ControllerSettings) -> bool {
        &&& settings.persist_location.blob_uri@ == url_text(self.persist_blob_url)
        &&& settings.persist_location.consensus_uri@ == url_text(self.persist_consensus_url)
        &&& settings.storage_stash_url == self.storage_stash_url
        &&& self.clusterd_image == Some(settings.clusterd_image)
        &&& settings.init_container_image == self.kubernetes_init_container_image
    }

    /// Configures the controller.
    pub fn controller(self) -> (settings: ControllerSettings)
        requires
            self.well_formed(),
        ensures
            self.gives(settings),
    {
        let clusterd_image = match self.clusterd_image {
            Some(image) => image,
            None => unreached(),
        };
        ControllerSettings {
            persist_location: PersistLocation {
                blob_uri: url_to_string(&self.persist_blob_url),
                consensus_uri: url_to_string(&self.persist_consensus_url),
            },
            storage_stash_url: self.storage_stash_url,
            clusterd_image,
            init_container_image: self.kubernetes_init_container_image,
        }
    }
}

/// What the server is started with.
pub struct ServerSettings {
    pub environment_id: String,
    pub aws_external_id_prefix: Option<AwsExternalIdPrefix>,
    pub default_storage_cluster_size: Option<String>,
    pub bootstrap_default_cluster_replica_size: String,
    pub bootstrap_builtin_cluster_replica_size: String,
    pub bootstrap_system_parameters: StringMap,
    pub availability_zones: Vec<String>,
    pub storage_usage_collection_interval: Duration,
    pub storage_usage_retention_period: Option<Duration>,
    pub segment_api_key: Option<String>,
    pub egress_ips: Vec<u32>,
    pub aws_account_id: Option<String>,
    pub aws_privatelink_availability_zones: Option<Vec<String>>,
    pub launchdarkly_sdk_key: Option<String>,
    pub launchdarkly_key_map: StringMap,
    pub config_sync_loop_interval: Option<Duration>,
}

/// `true` if `size` is one of the sizes.
pub open spec fn is_size(sizes: Seq<String>, size: Seq<char>) -> bool {
    exists|i: int| 0 <= i < sizes.len() && (#[trigger] sizes[i])@ == size
}

fn contains_size(sizes: &Vec<String>, size: &String) -> (result: bool)
    ensures
        result == is_size(sizes@, size@),
{
    for i in 0..sizes.len()
        invariant
            forall|j: int| 0 <= j < i ==> (#[trigger] sizes@[j])@ != size@,
    {
        if sizes[i] == *size {
            return true;
        }
    }
    false
}

impl CloudArgs {
    /// Whether the default size of storage clusters, if there is one, is among the
    /// sizes of cluster replicas.
    pub open spec fn default_size_exists(self, sizes: Seq<String>) -> bool {
        self.default_storage_host_size matches Some(size) ==> is_size(sizes, size@)
    }

    /// Whether the server is started as these options say.
    pub open spec fn gives(self, settings: ServerSettings) -> bool {
        &&& settings.environment_id == self.environment_id
        &&& settings.aws_external_id_prefix == self.aws_external_id_prefix
        &&& settings.default_storage_cluster_size == self.default_storage_host_size
        &&& settings.bootstrap_default_cluster_replica_size
            == self.bootstrap_default_cluster_replica_size
        &&& settings.bootstrap_builtin_cluster_replica_size
            == self.bootstrap_builtin_cluster_replica_size
        &&& settings.bootstrap_system_parameters@ == argument_map(self.bootstrap_system_parameter@)
        &&& settings.availability_zones == self.availability_zone
        &&& settings.storage_usage_collection_interval == self.storage_usage_collection_interval
        &&& settings.storage_usage_retention_period == self.storage_usage_retention_period
        &&& settings.segment_api_key == self.segment_api_key
        &&& settings.egress_ips == self.announce_egress_ip
        &&& settings.aws_account_id == self.aws_account_id
        &&& settings.aws_privatelink_availability_zones == self.aws_privatelink_availability_zones
        &&& settings.launchdarkly_sdk_key == self.launchdarkly_sdk_key
        &&& settings.launchdarkly_key_map@ == argument_map(self.launchdarkly_key_map@)
        &&& settings.config_sync_loop_interval == self.config_sync_loop_interval
    }

    /// Configures the server, given the names of the sizes of cluster replicas.
    pub fn server(self, cluster_replica_sizes: &Vec<String>) -> (settings: Result<
        ServerSettings,
        ConfigError,
    >)
        ensures
            match settings {
                Ok(settings) => self.default_size_exists(cluster_replica_sizes@) && self.gives(
                    settings,
                ),
                Err(err) => !self.default_size_exists(cluster_replica_sizes@) && err
                    == ConfigError::UnknownDefaultStorageClusterSize,
            },
    {
        if let Some(size) = &self.default_storage_host_size {
            if !contains_size(cluster_replica_sizes, size) {
                return Err(ConfigError::UnknownDefaultStorageClusterSize);
            }
        }
        Ok(
            ServerSettings {
                environment_id: self.environment_id,
                aws_external_id_prefix: self.aws_external_id_prefix,
                default_storage_cluster_size: self.default_storage_host_size,
                bootstrap_default_cluster_replica_size: self.bootstrap_default_cluster_replica_size,
                bootstrap_builtin_cluster_replica_size: self.bootstrap_builtin_cluster_replica_size,
                bootstrap_system_parameters: StringMap::from_args(self.bootstrap_system_parameter),
                availability_zones: self.availability_zone,
                storage_usage_collection_interval: self.storage_usage_collection_interval,
                storage_usage_retention_period: self.storage_usage_retention_period,
                segment_api_key: self.segment_api_key,
                egress_ips: self.announce_egress_ip,
                aws_account_id: self.aws_account_id,
                aws_privatelink_availability_zones: self.aws_privatelink_availability_zones,
                launchdarkly_sdk_key: self.launchdarkly_sdk_key,
                launchdarkly_key_map: StringMap::from_args(self.launchdarkly_key_map),
                config_sync_loop_interval: self.config_sync_loop_interval,
            },
        )
    }
}

} // verus!
