//! Handing what was planned to the AWS SDK.

use crate::aws::assume_role::{region_view, AssumeRoleChain, AssumeRoleChainView};
use crate::outside::{
    config_credentials_provider, config_endpoint_url, config_from_env, config_overrides,
    config_region, region_clone, role_builder, role_external_id, role_region, role_request,
    role_session_name, ConfigOverrides, RoleRequest,
};
use aws_config::sts::AssumeRoleProviderBuilder;
use aws_config::ConfigLoader;
use aws_credential_types::provider::SharedCredentialsProvider;
use aws_types::region::Region;
use vstd::prelude::*;

verus! {

/// The requests for the two role sessions of a chain.
pub struct RoleRequests {
    /// For the session in the jump role, to be opened with the credentials of this
    /// process.
    pub jump: AssumeRoleProviderBuilder,
    /// For the session in the customer's role, to be opened from within the first.
    pub customer: AssumeRoleProviderBuilder,
}

impl AssumeRoleChainView {
    /// The request for the session in the jump role. It presents no external ID, as
    /// the jump role belongs to the environment.
    pub open spec fn jump_request(self) -> RoleRequest {
        RoleRequest {
            role_arn: self.jump_role_arn,
            session_name: Some(self.jump_session_name),
            external_id: None,
            region: self.region,
        }
    }

    /// The request for the session in the customer's role.
    pub open spec fn customer_request(self) -> RoleRequest {
        RoleRequest {
            role_arn: self.role_arn,
            session_name: Some(self.session_name),
            external_id: self.external_id,
            region: self.region,
        }
    }
}

impl AssumeRoleChain {
    /// Puts together the requests for the two sessions.
    pub fn into_requests(self) -> (requests: RoleRequests)
        ensures
            role_request(requests.jump) == self@.jump_request(),
            role_request(requests.customer) == self@.customer_request(),
    {
        let mut jump = role_session_name(role_builder(self.jump_role_arn), self.jump_session_name);
        if let Some(region) = &self.region {
            jump = role_region(jump, region_clone(region));
        }
        let mut customer = role_session_name(role_builder(self.role_arn), self.session_name);
        if let Some(external_id) = self.external_id {
            customer = role_external_id(customer, external_id);
        }
        if let Some(region) = self.region {
            customer = role_region(customer, region);
        }
        RoleRequests { jump, customer }
    }
}

/// Puts together the configuration of the SDK. What is not set is left to what the
/// SDK finds when it loads the configuration.
pub fn config_loader(
    credentials: SharedCredentialsProvider,
    region: Option<Region>,
    endpoint: Option<String>,
) -> (loader: ConfigLoader)
    ensures
        config_overrides(loader) == (ConfigOverrides {
            credentials: Some(credentials),
            region: region_view(region),
            endpoint: endpoint.deep_view(),
        }),
{
    let mut loader = config_credentials_provider(config_from_env(), credentials);
    if let Some(region) = region {
        loader = config_region(loader, region);
    }
    if let Some(endpoint) = endpoint {
        loader = config_endpoint_url(loader, endpoint);
    }
    loader
}

} // verus!
