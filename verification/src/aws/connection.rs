//! Using and validating an AWS connection.
//!
//! Both go step by step: a step names what is to be asked of the outside world,
//! and the matching function takes the reply and gives the next step.

use crate::aws::assume_role::{region_view, AssumeRoleChain, AssumeRoleChainView};
use crate::aws::credentials::{Keys, LoadPoint, LoadPointView, LoadStep, LoadStepView};
use crate::aws::types::{AwsAuth, AwsConnection, AwsError, ConnectionContext, ValidateError};
use crate::global_id::GlobalId;
use crate::outside::{credentials_keys, region_new};
use aws_credential_types::Credentials;
use aws_types::region::Region;
use vstd::pervasive::unreached;
use vstd::prelude::*;

verus! {

/// Where the credentials of a connection come from.
pub enum CredentialsSource {
    /// Access keys.
    Keys(Credentials),
    /// Sessions in assumed roles.
    AssumeRole(AssumeRoleChain),
}

/// A `CredentialsSource` as plain text.
pub enum CredentialsSourceView {
    Keys(Keys),
    AssumeRole(AssumeRoleChainView),
}

impl View for CredentialsSource {
    type V = CredentialsSourceView;

    open spec fn view(&self) -> CredentialsSourceView {
        match self {
            CredentialsSource::Keys(credentials) => CredentialsSourceView::Keys(
                credentials_keys(*credentials),
            ),
            CredentialsSource::AssumeRole(chain) => CredentialsSourceView::AssumeRole(chain@),
        }
    }
}

/// What the AWS SDK is to be configured with, on top of what it finds in the
/// process's surroundings.
pub struct SdkSettings {
    pub credentials: CredentialsSource,
    pub region: Option<Region>,
    pub endpoint: Option<String>,
}

/// `SdkSettings` as plain text.
pub struct SdkSettingsView {
    pub credentials: CredentialsSourceView,
    pub region: Option<Seq<char>>,
    pub endpoint: Option<Seq<char>>,
}

impl View for SdkSettings {
    type V = SdkSettingsView;

    open spec fn view(&self) -> SdkSettingsView {
        SdkSettingsView {
            credentials: self.credentials@,
            region: region_view(self.region),
            endpoint: self.endpoint.deep_view(),
        }
    }
}

/// What comes next in configuring the SDK.
pub enum SdkStep {
    /// Read this secret and go on from this point with the reply.
    ReadSecret(GlobalId, LoadPoint),
    /// Find the default region and go on with the reply.
    FetchDefaultRegion,
    /// The settings, or why there are none.
    Done(Result<SdkSettings, AwsError>),
}

/// An `SdkStep` as plain text.
pub enum SdkStepView {
    ReadSecret(GlobalId, LoadPointView),
    FetchDefaultRegion,
    Done(Result<SdkSettingsView, AwsError>),
}

impl View for SdkStep {
    type V = SdkStepView;

    open spec fn view(&self) -> SdkStepView {
        match self {
            SdkStep::ReadSecret(id, point) => SdkStepView::ReadSecret(*id, point@),
            SdkStep::FetchDefaultRegion => SdkStepView::FetchDefaultRegion,
            SdkStep::Done(Ok(settings)) => SdkStepView::Done(Ok(settings@)),
            SdkStep::Done(Err(err)) => SdkStepView::Done(Err(*err)),
        }
    }
}

/// What comes next in validating a connection, where `E` is the error that AWS
/// replies with.
pub enum ValidateStep<E> {
    /// Read this secret and go on from this point with the reply.
    ReadSecret(GlobalId, LoadPoint),
    /// Find the default region and go on with the reply.
    FetchDefaultRegion,
    /// Ask AWS who the caller is.
    GetCallerIdentity(SdkSettings),
    /// Find the default region for the probe and go on with the reply.
    FetchProbeRegion,
    /// Ask AWS who the caller is, without an external ID.
    ProbeCallerIdentity(SdkSettings),
    /// Whether the connection is valid.
    Done(Result<(), ValidateError<E>>),
}

/// A `ValidateStep` as plain text.
pub enum ValidateStepView<E> {
    ReadSecret(GlobalId, LoadPointView),
    FetchDefaultRegion,
    GetCallerIdentity(SdkSettingsView),
    FetchProbeRegion,
    ProbeCallerIdentity(SdkSettingsView),
    Done(Result<(), ValidateError<E>>),
}

impl<E> View for ValidateStep<E> {
    type V = ValidateStepView<E>;

    open spec fn view(&self) -> ValidateStepView<E> {
        match self {
            ValidateStep::ReadSecret(id, point) => ValidateStepView::ReadSecret(*id, point@),
            ValidateStep::FetchDefaultRegion => ValidateStepView::FetchDefaultRegion,
            ValidateStep::GetCallerIdentity(settings) => ValidateStepView::GetCallerIdentity(
                settings@,
            ),
            ValidateStep::FetchProbeRegion => ValidateStepView::FetchProbeRegion,
            ValidateStep::ProbeCallerIdentity(settings) => ValidateStepView::ProbeCallerIdentity(
                settings@,
            ),
            ValidateStep::Done(result) => ValidateStepView::Done(*result),
        }
    }
}

impl AwsConnection {
    /// The settings with the given credentials.
    pub open spec fn settings(self, credentials: CredentialsSourceView) -> SdkSettingsView {
        SdkSettingsView {
            credentials,
            region: self.region.deep_view(),
            endpoint: self.endpoint.deep_view(),
        }
    }

    /// The step in configuring the SDK that stands for a step in loading keys.
    pub open spec fn sdk_step(self, step: LoadStepView) -> SdkStepView {
        match step {
            LoadStepView::ReadSecret(id, point) => SdkStepView::ReadSecret(id, point),
            LoadStepView::Done(Ok(keys)) => SdkStepView::Done(
                Ok(self.settings(CredentialsSourceView::Keys(keys))),
            ),
            LoadStepView::Done(Err(err)) => SdkStepView::Done(Err(err)),
        }
    }

    /// The last step in configuring the SDK to assume a role in the given region.
    pub open spec fn sdk_role_step(
        self,
        context: ConnectionContext,
        connection_id: GlobalId,
        region: Option<Seq<char>>,
    ) -> SdkStepView
        recommends
            self.auth is AssumeRole,
    {
        match self.auth->AssumeRole_0.guarded_chain(context, connection_id, region) {
            Ok(chain) => SdkStepView::Done(
                Ok(self.settings(CredentialsSourceView::AssumeRole(chain))),
            ),
            Err(err) => SdkStepView::Done(Err(err)),
        }
    }

    /// The first step in configuring the SDK.
    pub open spec fn first_sdk_step(
        self,
        context: ConnectionContext,
        connection_id: GlobalId,
    ) -> SdkStepView {
        match self.auth {
            AwsAuth::Credentials(credentials) => self.sdk_step(credentials.first_step()),
            AwsAuth::AssumeRole(_) => match self.region {
                Some(region) => self.sdk_role_step(context, connection_id, Some(region@)),
                None => SdkStepView::FetchDefaultRegion,
            },
        }
    }

    /// The step in validating that stands for a step in configuring the SDK.
    pub open spec fn validate_step<E>(self, step: SdkStepView) -> ValidateStepView<E> {
        match step {
            SdkStepView::ReadSecret(id, point) => ValidateStepView::ReadSecret(id, point),
            SdkStepView::FetchDefaultRegion => ValidateStepView::FetchDefaultRegion,
            SdkStepView::Done(Ok(settings)) => ValidateStepView::GetCallerIdentity(settings),
            SdkStepView::Done(Err(err)) => ValidateStepView::Done(
                Err(ValidateError::Connection(err)),
            ),
        }
    }

    /// The step that probes the role in the given region without an external ID.
    pub open spec fn probe_step<E>(
        self,
        context: ConnectionContext,
        connection_id: GlobalId,
        region: Option<Seq<char>>,
    ) -> ValidateStepView<E>
        recommends
            self.auth is AssumeRole,
    {
        match self.auth->AssumeRole_0.chain(context, connection_id, None, region) {
            Ok(chain) => ValidateStepView::ProbeCallerIdentity(
                self.settings(CredentialsSourceView::AssumeRole(chain)),
            ),
            Err(err) => ValidateStepView::Done(Err(ValidateError::Connection(err))),
        }
    }

    /// The step after AWS has told who the caller is or replied with an error, which
    /// is then the outcome.
    pub open spec fn identity_step<E>(
        self,
        context: ConnectionContext,
        connection_id: GlobalId,
        identity: Result<(), E>,
    ) -> ValidateStepView<E> {
        match identity {
            Err(err) => ValidateStepView::Done(Err(ValidateError::CallerIdentity(err))),
            Ok(()) => match self.auth {
                AwsAuth::Credentials(_) => ValidateStepView::Done(Ok(())),
                AwsAuth::AssumeRole(_) => match self.region {
                    Some(region) => self.probe_step(context, connection_id, Some(region@)),
                    None => ValidateStepView::FetchProbeRegion,
                },
            },
        }
    }

    /// The last step of validating, once AWS has or has not accepted a caller
    /// without an external ID.
    pub open spec fn probed_step<E>(accepted: bool) -> ValidateStepView<E> {
        if accepted {
            ValidateStepView::Done(Err(ValidateError::Connection(AwsError::ExternalIdNotRequired)))
        } else {
            ValidateStepView::Done(Ok(()))
        }
    }

    /// Starts to configure the SDK as this connection says.
    pub fn load_sdk_config(&self, context: &ConnectionContext, connection_id: GlobalId) -> (step:
        SdkStep)
        ensures
            step@ == self.first_sdk_step(*context, connection_id),
    {
        match &self.auth {
            AwsAuth::Credentials(credentials) => self.load_sdk_config_from_keys(
                credentials.load_credentials_provider(),
            ),
            AwsAuth::AssumeRole(_) => match self.configured_region() {
                Some(region) => self.resume_with_region(context, connection_id, Some(region)),
                None => SdkStep::FetchDefaultRegion,
            },
        }
    }

    /// Goes on configuring the SDK with the reply of the secret store.
    pub fn resume_with_secret(&self, point: LoadPoint, reply: Option<String>) -> (step: SdkStep)
        requires
            self.auth is Credentials,
        ensures
            step@ == self.sdk_step(
                self.auth->Credentials_0.next_step(point@, reply.deep_view()),
            ),
    {
        match &self.auth {
            AwsAuth::Credentials(credentials) => self.load_sdk_config_from_keys(
                credentials.resume(point, reply),
            ),
            AwsAuth::AssumeRole(_) => unreached(),
        }
    }

    /// Goes on configuring the SDK with the region to assume the role in.
    pub fn resume_with_region(
        &self,
        context: &ConnectionContext,
        connection_id: GlobalId,
        region: Option<Region>,
    ) -> (step: SdkStep)
        requires
            self.auth is AssumeRole,
        ensures
            step@ == self.sdk_role_step(*context, connection_id, region_view(region)),
    {
        match &self.auth {
            AwsAuth::AssumeRole(role) => match role.load_credentials_provider(
                context,
                connection_id,
                region,
            ) {
                Ok(chain) => SdkStep::Done(
                    Ok(self.load_sdk_config_from_credentials(CredentialsSource::AssumeRole(chain))),
                ),
                Err(err) => SdkStep::Done(Err(err)),
            },
            AwsAuth::Credentials(_) => unreached(),
        }
    }

    fn load_sdk_config_from_keys(&self, step: LoadStep) -> (result: SdkStep)
        ensures
            result@ == self.sdk_step(step@),
    {
        match step {
            LoadStep::ReadSecret(id, point) => SdkStep::ReadSecret(id, point),
            LoadStep::Done(Ok(credentials)) => SdkStep::Done(
                Ok(self.load_sdk_config_from_credentials(CredentialsSource::Keys(credentials))),
            ),
            LoadStep::Done(Err(err)) => SdkStep::Done(Err(err)),
        }
    }

    fn load_sdk_config_from_credentials(&self, credentials: CredentialsSource) -> (settings:
        SdkSettings)
        ensures
            settings@ == self.settings(credentials@),
    {
        let endpoint = match &self.endpoint {
            Some(endpoint) => Some(endpoint.clone()),
            None => None,
        };
        SdkSettings { credentials, region: self.configured_region(), endpoint }
    }

    fn configured_region(&self) -> (region: Option<Region>)
        ensures
            region_view(region) == self.region.deep_view(),
    {
        match &self.region {
            Some(name) => Some(region_new(name.clone())),
            None => None,
        }
    }

    /// Starts to validate this connection.
    pub fn validate<E>(&self, id: GlobalId, context: &ConnectionContext) -> (step: ValidateStep<E>)
        ensures
            step@ == self.validate_step::<E>(self.first_sdk_step(*context, id)),
    {
        self.validate_after(self.load_sdk_config(context, id))
    }

    /// Goes on validating with the reply of the secret store.
    pub fn validate_with_secret<E>(&self, point: LoadPoint, reply: Option<String>) -> (step:
        ValidateStep<E>)
        requires
            self.auth is Credentials,
        ensures
            step@ == self.validate_step::<E>(
                self.sdk_step(self.auth->Credentials_0.next_step(point@, reply.deep_view())),
            ),
    {
        self.validate_after(self.resume_with_secret(point, reply))
    }

    /// Goes on validating with the region to assume the role in.
    pub fn validate_with_region<E>(
        &self,
        id: GlobalId,
        context: &ConnectionContext,
        region: Option<Region>,
    ) -> (step: ValidateStep<E>)
        requires
            self.auth is AssumeRole,
        ensures
            step@ == self.validate_step::<E>(self.sdk_role_step(*context, id, region_view(region))),
    {
        self.validate_after(self.resume_with_region(context, id, region))
    }

    /// Goes on validating once AWS has told who the caller is, or ends with the error
    /// that AWS replied with.
    ///
    /// Per AWS's recommendation, validating a connection that assumes a role makes
    /// sure that the role rejects requests without an external ID.
    pub fn validate_with_identity<E>(
        &self,
        id: GlobalId,
        context: &ConnectionContext,
        identity: Result<(), E>,
    ) -> (step: ValidateStep<E>)
        ensures
            step@ == self.identity_step(*context, id, identity),
    {
        if let Err(err) = identity {
            return ValidateStep::Done(Err(ValidateError::CallerIdentity(err)));
        }
        match &self.auth {
            AwsAuth::Credentials(_) => ValidateStep::Done(Ok(())),
            AwsAuth::AssumeRole(_) => match self.configured_region() {
                Some(region) => self.validate_with_probe_region(id, context, Some(region)),
                None => ValidateStep::FetchProbeRegion,
            },
        }
    }

    /// Goes on validating with the region to probe the role in.
    pub fn validate_with_probe_region<E>(
        &self,
        id: GlobalId,
        context: &ConnectionContext,
        region: Option<Region>,
    ) -> (step: ValidateStep<E>)
        requires
            self.auth is AssumeRole,
        ensures
            step@ == self.probe_step::<E>(*context, id, region_view(region)),
    {
        match &self.auth {
            AwsAuth::AssumeRole(role) => match role.dangerously_load_credentials_provider(
                context,
                id,
                None,
                region,
            ) {
                Ok(chain) => ValidateStep::ProbeCallerIdentity(
                    self.load_sdk_config_from_credentials(CredentialsSource::AssumeRole(chain)),
                ),
                Err(err) => ValidateStep::Done(Err(ValidateError::Connection(err))),
            },
            AwsAuth::Credentials(_) => unreached(),
        }
    }

    /// Ends validating, knowing whether AWS accepted a caller without an external
    /// ID.
    pub fn validate_with_probe<E>(accepted: bool) -> (step: ValidateStep<E>)
        ensures
            step@ == Self::probed_step::<E>(accepted),
    {
        if accepted {
            ValidateStep::Done(Err(ValidateError::Connection(AwsError::ExternalIdNotRequired)))
        } else {
            ValidateStep::Done(Ok(()))
        }
    }

    fn validate_after<E>(&self, step: SdkStep) -> (result: ValidateStep<E>)
        ensures
            result@ == self.validate_step::<E>(step@),
    {
        match step {
            SdkStep::ReadSecret(id, point) => ValidateStep::ReadSecret(id, point),
            SdkStep::FetchDefaultRegion => ValidateStep::FetchDefaultRegion,
            SdkStep::Done(Ok(settings)) => ValidateStep::GetCallerIdentity(settings),
            SdkStep::Done(Err(err)) => ValidateStep::Done(Err(ValidateError::Connection(err))),
        }
    }

    /// Whether a new connection is validated when nobody says so.
    pub fn validate_by_default(&self) -> (validate: bool)
        ensures
            !validate,
    {
        false
    }
}

} // verus!
