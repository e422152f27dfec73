//! What holds of AWS connections as a whole.

use crate::aws::assume_role::{AssumeRoleChainView, default_session_name, external_id_of, trust_policy};
use crate::aws::connection::{
    CredentialsSourceView, SdkSettingsView, SdkStepView, ValidateStepView,
};
use crate::aws::credentials::{loading_gives_the_keys, steps_left, LoadStepView, SecretStore};
use crate::aws::types::{
    AwsAssumeRole, AwsAuth, AwsConnection, AwsCredentials, AwsError, ConnectionContext,
    ValidateError,
};
use crate::aws::wire::ProtoAwsConnection;
use crate::global_id::{name_has_no_separator, name_injective, GlobalId};
use crate::outside::Json;
use crate::proto::{RustType, TryFromProtoError};
use vstd::prelude::*;

verus! {

/// What the outside world replies while a connection is used or validated, where
/// `E` is the error that AWS replies with.
#[verifier::reject_recursive_types(E)]
pub struct World<E> {
    /// What the secret store holds.
    pub secrets: SecretStore,
    /// The default region, when it is asked for first.
    pub region: Option<Seq<char>>,
    /// The default region, when it is asked for again to probe a role.
    pub probe_region: Option<Seq<char>>,
    /// What AWS replies to a caller with these settings that asks who it is.
    pub identity: spec_fn(SdkSettingsView) -> Result<(), E>,
}

impl<E> World<E> {
    /// Whether AWS tells a caller with these settings who it is.
    pub open spec fn accepts(self, settings: SdkSettingsView) -> bool {
        (self.identity)(settings) is Ok
    }
}

impl AwsConnection {
    /// The outcome of configuring the SDK from `step` on.
    pub open spec fn sdk_outcome<E>(
        self,
        context: ConnectionContext,
        id: GlobalId,
        step: SdkStepView,
        world: World<E>,
    ) -> Result<SdkSettingsView, AwsError>
        decreases sdk_steps_left(step),
    {
        match step {
            SdkStepView::ReadSecret(secret, point) => self.sdk_outcome(
                context,
                id,
                self.sdk_step(
                    self.auth->Credentials_0.next_step(point, (world.secrets)(secret)),
                ),
                world,
            ),
            SdkStepView::FetchDefaultRegion => self.sdk_outcome(
                context,
                id,
                self.sdk_role_step(context, id, world.region),
                world,
            ),
            SdkStepView::Done(result) => result,
        }
    }

    /// The settings that this connection stands for in the given world.
    pub open spec fn settings_in<E>(
        self,
        context: ConnectionContext,
        id: GlobalId,
        world: World<E>,
    ) -> Result<SdkSettingsView, AwsError> {
        match self.auth {
            AwsAuth::Credentials(credentials) => match credentials.keys_in(world.secrets) {
                Ok(keys) => Ok(self.settings(CredentialsSourceView::Keys(keys))),
                Err(err) => Err(err),
            },
            AwsAuth::AssumeRole(role) => match role.guarded_chain(
                context,
                id,
                self.region_or(world.region),
            ) {
                Ok(chain) => Ok(self.settings(CredentialsSourceView::AssumeRole(chain))),
                Err(err) => Err(err),
            },
        }
    }

    /// The configured region, or else the default.
    pub open spec fn region_or(self, default: Option<Seq<char>>) -> Option<Seq<char>> {
        match self.region {
            Some(region) => Some(region@),
            None => default,
        }
    }

    /// The settings that present no external ID to the role.
    pub open spec fn probe_settings<E>(
        self,
        context: ConnectionContext,
        id: GlobalId,
        world: World<E>,
    ) -> Result<SdkSettingsView, AwsError>
        recommends
            self.auth is AssumeRole,
    {
        match self.auth->AssumeRole_0.chain(
            context,
            id,
            None,
            self.region_or(world.probe_region),
        ) {
            Ok(chain) => Ok(self.settings(CredentialsSourceView::AssumeRole(chain))),
            Err(err) => Err(err),
        }
    }

    /// The outcome of validating from `step` on.
    pub open spec fn validate_outcome<E>(
        self,
        context: ConnectionContext,
        id: GlobalId,
        step: ValidateStepView<E>,
        world: World<E>,
    ) -> Result<(), ValidateError<E>>
        decreases validate_steps_left(step),
    {
        match step {
            ValidateStepView::ReadSecret(secret, point) => self.validate_outcome(
                context,
                id,
                self.validate_step(
                    self.sdk_step(
                        self.auth->Credentials_0.next_step(point, (world.secrets)(secret)),
                    ),
                ),
                world,
            ),
            ValidateStepView::FetchDefaultRegion => self.validate_outcome(
                context,
                id,
                self.validate_step(self.sdk_role_step(context, id, world.region)),
                world,
            ),
            ValidateStepView::GetCallerIdentity(settings) => self.validate_outcome(
                context,
                id,
                self.identity_step(context, id, (world.identity)(settings)),
                world,
            ),
            ValidateStepView::FetchProbeRegion => self.validate_outcome(
                context,
                id,
                self.probe_step(context, id, world.probe_region),
                world,
            ),
            ValidateStepView::ProbeCallerIdentity(settings) => self.validate_outcome(
                context,
                id,
                Self::probed_step(world.accepts(settings)),
                world,
            ),
            ValidateStepView::Done(result) => result,
        }
    }
}

/// A bound on the steps that configuring the SDK still takes.
pub open spec fn sdk_steps_left(step: SdkStepView) -> nat {
    match step {
        SdkStepView::ReadSecret(id, point) => steps_left(LoadStepView::ReadSecret(id, point)),
        SdkStepView::FetchDefaultRegion => 1,
        SdkStepView::Done(_) => 0,
    }
}

/// A bound on the steps that validating still takes.
pub open spec fn validate_steps_left<E>(step: ValidateStepView<E>) -> nat {
    match step {
        ValidateStepView::ReadSecret(id, point) => 4 + steps_left(
            LoadStepView::ReadSecret(id, point),
        ),
        ValidateStepView::FetchDefaultRegion => 4,
        ValidateStepView::GetCallerIdentity(_) => 3,
        ValidateStepView::FetchProbeRegion => 2,
        ValidateStepView::ProbeCallerIdentity(_) => 1,
        ValidateStepView::Done(_) => 0,
    }
}

/// Configuring the SDK step by step gives the settings that the connection stands
/// for.
pub proof fn configuring_gives_the_settings<E>(
    connection: AwsConnection,
    context: ConnectionContext,
    id: GlobalId,
    world: World<E>,
)
    ensures
        connection.sdk_outcome(context, id, connection.first_sdk_step(context, id), world)
            == connection.settings_in(context, id, world),
{
    reveal_with_fuel(AwsConnection::sdk_outcome, 4);
    if let AwsAuth::Credentials(credentials) = connection.auth {
        loading_gives_the_keys(credentials, world.secrets);
        reveal_with_fuel(AwsCredentials::outcome, 4);
    }
}

/// The connection is valid exactly if it can be configured, AWS accepts it, and,
/// where it assumes a role, AWS rejects it without an external ID. The error is that
/// of the first of these that fails; where AWS does not accept the connection, it is
/// the one that AWS replied with.
pub proof fn validation_outcome<E>(
    connection: AwsConnection,
    context: ConnectionContext,
    id: GlobalId,
    world: World<E>,
)
    ensures
        connection.validate_outcome(
            context,
            id,
            connection.validate_step(connection.first_sdk_step(context, id)),
            world,
        ) == match connection.settings_in(context, id, world) {
            Err(err) => Err(ValidateError::Connection(err)),
            Ok(settings) => match (world.identity)(settings) {
                Err(err) => Err(ValidateError::CallerIdentity(err)),
                Ok(()) => if connection.auth is Credentials {
                    Ok(())
                } else {
                    match connection.probe_settings(context, id, world) {
                        Err(err) => Err(ValidateError::Connection(err)),
                        Ok(probe) => if world.accepts(probe) {
                            Err(ValidateError::Connection(AwsError::ExternalIdNotRequired))
                        } else {
                            Ok(())
                        },
                    }
                },
            },
        },
{
    reveal_with_fuel(AwsConnection::validate_outcome, 6);
    if let AwsAuth::Credentials(credentials) = connection.auth {
        loading_gives_the_keys(credentials, world.secrets);
        reveal_with_fuel(AwsCredentials::outcome, 4);
    }
}

/// A connection that assumes a role is never configured without the external ID of
/// its own environment and connection, and it is configured whenever the
/// environment has a prefix and a jump role.
pub proof fn external_id_is_always_presented<E>(
    connection: AwsConnection,
    context: ConnectionContext,
    id: GlobalId,
    world: World<E>,
)
    requires
        connection.auth is AssumeRole,
    ensures
        match connection.settings_in(context, id, world) {
            Ok(settings) => {
                &&& context.aws_external_id_prefix is Some
                &&& context.aws_connection_role_arn is Some
                &&& settings.credentials is AssumeRole
                &&& settings.credentials->AssumeRole_0.external_id == Some(
                    external_id_of(context.aws_external_id_prefix->0@, id),
                )
            },
            Err(err) => if context.aws_external_id_prefix is None {
                err == AwsError::NoExternalIdPrefix
            } else {
                context.aws_connection_role_arn is None && err == AwsError::NoConnectionRole
            },
        },
{
}

/// A valid connection that assumes a role is one whose role AWS lets this
/// environment assume with the external ID and does not let it assume without one.
pub proof fn valid_role_requires_external_id<E>(
    connection: AwsConnection,
    context: ConnectionContext,
    id: GlobalId,
    world: World<E>,
)
    requires
        connection.auth is AssumeRole,
        connection.validate_outcome(
            context,
            id,
            connection.validate_step(connection.first_sdk_step(context, id)),
            world,
        ) is Ok,
    ensures
        connection.settings_in(context, id, world) matches Ok(settings) && world.accepts(settings),
        connection.probe_settings(context, id, world) matches Ok(probe) && !world.accepts(probe),
{
    validation_outcome(connection, context, id, world);
}

/// The probe presents no external ID. In all else, while the default region stays
/// the same, it is what the connection is configured with.
pub proof fn probe_differs_in_external_id<E>(
    connection: AwsConnection,
    context: ConnectionContext,
    id: GlobalId,
    world: World<E>,
)
    requires
        connection.auth is AssumeRole,
        connection.settings_in(context, id, world) is Ok,
        connection.region is Some || world.region == world.probe_region,
    ensures
        connection.probe_settings(context, id, world) is Ok,
        ({
            let settings = connection.settings_in(context, id, world)->Ok_0;
            let probe = connection.probe_settings(context, id, world)->Ok_0;
            let chain = settings.credentials->AssumeRole_0;
            probe == SdkSettingsView {
                credentials: CredentialsSourceView::AssumeRole(
                    AssumeRoleChainView { external_id: None, ..chain },
                ),
                ..settings
            }
        }),
{
}

/// Two connections have the same external ID only if they are the same connection
/// of the same environment.
pub proof fn external_id_identifies_connection(
    prefix1: Seq<char>,
    id1: GlobalId,
    prefix2: Seq<char>,
    id2: GlobalId,
)
    requires
        external_id_of(prefix1, id1) == external_id_of(prefix2, id2),
    ensures
        prefix1 == prefix2,
        id1 == id2,
{
    reveal_strlit("_");
    reveal_strlit("mz_");
    let head1 = "mz_"@ + prefix1;
    let head2 = "mz_"@ + prefix2;
    assert("_"@ == seq!['_']);
    name_has_no_separator(id1);
    name_has_no_separator(id2);
    last_separator(head1, '_', id1.name(), head2, id2.name());
    name_injective(id1, id2);
    assert(head1.skip(3) == prefix1);
    assert(head2.skip(3) == prefix2);
}

/// Two sessions have the same default name only if they are for the same
/// connection of the same environment.
pub proof fn session_name_identifies_connection(
    environment1: Seq<char>,
    id1: GlobalId,
    environment2: Seq<char>,
    id2: GlobalId,
)
    requires
        default_session_name(environment1, id1) == default_session_name(environment2, id2),
    ensures
        environment1 == environment2,
        id1 == id2,
{
    reveal_strlit("-");
    assert("-"@ == seq!['-']);
    name_has_no_separator(id1);
    name_has_no_separator(id2);
    last_separator(environment1, '-', id1.name(), environment2, id2.name());
    name_injective(id1, id2);
}

/// A text is split in only one way before a last separator.
proof fn last_separator(
    head1: Seq<char>,
    separator: char,
    tail1: Seq<char>,
    head2: Seq<char>,
    tail2: Seq<char>,
)
    requires
        head1 + seq![separator] + tail1 == head2 + seq![separator] + tail2,
        !tail1.contains(separator),
        !tail2.contains(separator),
    ensures
        head1 == head2,
        tail1 == tail2,
{
    let whole1 = head1 + seq![separator] + tail1;
    let whole2 = head2 + seq![separator] + tail2;
    let n1 = head1.len() as int;
    let n2 = head2.len() as int;
    assert(whole1.len() == n1 + 1 + tail1.len());
    assert(whole2.len() == n2 + 1 + tail2.len());
    if n1 < n2 {
        assert(whole2[n2] == separator);
        assert(tail1[n2 - n1 - 1] == whole1[n2]);
    } else if n2 < n1 {
        assert(whole1[n1] == separator);
        assert(tail2[n1 - n2 - 1] == whole2[n1]);
    }
    assert(head1 == whole1.take(n1));
    assert(head2 == whole2.take(n2));
    assert(tail1 == whole1.skip(n1 + 1));
    assert(tail2 == whole2.skip(n2 + 1));
}

/// The example trust policy allows what a configured connection does: its
/// principal is the jump role, and its external ID is the one that is presented.
pub proof fn trust_policy_matches_presented_id<E>(
    connection: AwsConnection,
    context: ConnectionContext,
    id: GlobalId,
    world: World<E>,
)
    requires
        connection.auth is AssumeRole,
    ensures
        connection.auth->AssumeRole_0.trust_policy_spec(context, id) is Ok
            <==> connection.settings_in(context, id, world) is Ok,
        connection.settings_in(context, id, world) matches Ok(settings) ==> {
            let chain = settings.credentials->AssumeRole_0;
            connection.auth->AssumeRole_0.trust_policy_spec(context, id) == Ok::<
                Json,
                AwsError,
            >(trust_policy(chain.jump_role_arn, chain.external_id->0))
        },
{
}

/// The session in the jump role always has the default name, whatever name the
/// customer chose for the session in the customer's role.
pub proof fn jump_session_has_default_name(
    role: AwsAssumeRole,
    context: ConnectionContext,
    id: GlobalId,
    external_id: Option<Seq<char>>,
    region: Option<Seq<char>>,
)
    requires
        context.aws_connection_role_arn is Some,
    ensures
        role.chain(context, id, external_id, region) matches Ok(chain) && {
            let default_name = default_session_name(context.environment_id@, id);
            &&& chain.jump_session_name == default_name
            &&& chain.session_name == match role.session_name {
                Some(name) => name@,
                None => default_name,
            }
        },
{
}

/// Of the two requests that reach a role, the customer's presents the external ID of
/// the environment and connection, and the one for the jump role presents none. Both
/// are made in the same region.
pub proof fn external_id_goes_to_the_customer(
    role: AwsAssumeRole,
    context: ConnectionContext,
    id: GlobalId,
    region: Option<Seq<char>>,
)
    requires
        role.guarded_chain(context, id, region) is Ok,
    ensures
        ({
            let chain = role.guarded_chain(context, id, region)->Ok_0;
            &&& chain.customer_request().role_arn == role.arn@
            &&& chain.customer_request().external_id == Some(
                external_id_of(context.aws_external_id_prefix->0@, id),
            )
            &&& chain.jump_request().role_arn == context.aws_connection_role_arn->0@
            &&& chain.jump_request().external_id is None
            &&& chain.customer_request().region == region
            &&& chain.jump_request().region == region
        }),
{
}

/// A connection comes back from the wire as it was sent.
pub proof fn connection_round_trip(connection: AwsConnection)
    ensures
        AwsConnection::may_decode(connection.encoding()),
        AwsConnection::decoding(connection.encoding()) == Ok::<AwsConnection, TryFromProtoError>(
            connection,
        ),
{
    connection.decode_encoding();
}

/// No two messages describe the same connection.
pub proof fn connection_message_is_unique(message1: ProtoAwsConnection, message2: ProtoAwsConnection)
    requires
        AwsConnection::may_decode(message1),
        AwsConnection::may_decode(message2),
        AwsConnection::decoding(message1) is Ok,
        AwsConnection::decoding(message1) == AwsConnection::decoding(message2),
    ensures
        message1 == message2,
{
    AwsConnection::encode_decoding(message1);
    AwsConnection::encode_decoding(message2);
}

} // verus!
