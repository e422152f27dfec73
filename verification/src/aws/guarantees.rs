//! What the results of AWS connections hold, part by part.

use crate::aws::assume_role::{chain_view, region_view, AssumeRoleChain, AssumeRoleChainView};
use crate::aws::connection::{
    CredentialsSource, CredentialsSourceView, SdkSettings, SdkSettingsView, SdkStep, SdkStepView,
    ValidateStep, ValidateStepView,
};
use crate::aws::credentials::{
    loading_gives_the_keys, Keys, LoadPoint, LoadPointView, LoadStep, LoadStepView, SecretStore,
};
use crate::aws::laws::{configuring_gives_the_settings, validation_outcome, World};
use crate::aws::types::{
    AwsAssumeRole, AwsAuth, AwsConnection, AwsCredentials, AwsError, ConnectionContext,
    ValidateError,
};
use crate::aws::wire::{
    ProtoAwsAssumeRole, ProtoAwsAuth, ProtoAwsConnection, ProtoAwsCredentials,
};
use crate::global_id::{GlobalId, StringOrSecret};
use crate::outside::{credentials_keys, region_name, Json};
use crate::proto::{RustType, TryFromProtoError};
use aws_types::region::Region;
use vstd::prelude::*;

verus! {

/// Whether `text` is made of these parts, one after the other.
pub open spec fn is_made_of(text: Seq<char>, parts: Seq<Seq<char>>) -> bool
    decreases parts.len(),
{
    if parts.len() == 0 {
        text.len() == 0
    } else {
        &&& parts[0].is_prefix_of(text)
        &&& is_made_of(text.skip(parts[0].len() as int), parts.skip(1))
    }
}

proof fn made_of_four(a: Seq<char>, b: Seq<char>, c: Seq<char>, d: Seq<char>)
    ensures
        is_made_of(a + b + c + d, seq![a, b, c, d]),
{
    reveal_with_fuel(is_made_of, 5);
    let parts = seq![a, b, c, d];
    assert((a + b + c + d).skip(a.len() as int) == b + c + d);
    assert((b + c + d).skip(b.len() as int) == c + d);
    assert((c + d).skip(c.len() as int) == d);
    assert(d.skip(d.len() as int) == Seq::<char>::empty());
    assert(parts.skip(1) == seq![b, c, d]);
    assert(parts.skip(1).skip(1) == seq![c, d]);
    assert(parts.skip(1).skip(1).skip(1) == seq![d]);
    assert(parts.skip(1).skip(1).skip(1).skip(1) == Seq::<Seq<char>>::empty());
}

proof fn made_of_three(a: Seq<char>, b: Seq<char>, c: Seq<char>)
    ensures
        is_made_of(a + b + c, seq![a, b, c]),
{
    reveal_with_fuel(is_made_of, 4);
    let parts = seq![a, b, c];
    assert((a + b + c).skip(a.len() as int) == b + c);
    assert((b + c).skip(b.len() as int) == c);
    assert(c.skip(c.len() as int) == Seq::<char>::empty());
    assert(parts.skip(1) == seq![b, c]);
    assert(parts.skip(1).skip(1) == seq![c]);
    assert(parts.skip(1).skip(1).skip(1) == Seq::<Seq<char>>::empty());
}

/// An external ID is `mz`, the prefix of the environment and the text of the
/// connection's identifier, with an underscore between them. There is one exactly if
/// the environment has a prefix.
pub proof fn external_id_names_prefix_and_connection(
    role: AwsAssumeRole,
    context: ConnectionContext,
    id: GlobalId,
)
    ensures
        match role.external_id_spec(context, id) {
            Ok(external_id) => context.aws_external_id_prefix is Some && is_made_of(
                external_id,
                seq!["mz_"@, context.aws_external_id_prefix->0@, "_"@, id.name()],
            ),
            Err(err) => context.aws_external_id_prefix is None && err
                == AwsError::NoExternalIdPrefix,
        },
{
    if let Some(prefix) = context.aws_external_id_prefix {
        made_of_four("mz_"@, prefix@, "_"@, id.name());
    }
}

/// Whether a chain leads from the jump role of the environment to the customer's role,
/// in sessions that are named for the environment and the connection, or, in the
/// customer's role, as the customer chose.
pub open spec fn leads_to_role(
    chain: AssumeRoleChainView,
    role: AwsAssumeRole,
    context: ConnectionContext,
    id: GlobalId,
) -> bool {
    let name = seq![context.environment_id@, "-"@, id.name()];
    &&& context.aws_connection_role_arn is Some
    &&& chain.jump_role_arn == context.aws_connection_role_arn->0@
    &&& chain.role_arn == role.arn@
    &&& is_made_of(chain.jump_session_name, name)
    &&& match role.session_name {
        Some(chosen) => chain.session_name == chosen@,
        None => is_made_of(chain.session_name, name),
    }
}

/// Whether a chain presents the external ID of the environment and the connection.
pub open spec fn presents_external_id(
    chain: AssumeRoleChainView,
    context: ConnectionContext,
    id: GlobalId,
) -> bool {
    &&& context.aws_external_id_prefix is Some
    &&& chain.external_id is Some
    &&& is_made_of(
        chain.external_id->0,
        seq!["mz_"@, context.aws_external_id_prefix->0@, "_"@, id.name()],
    )
}

/// A chain leads to the customer's role, with the external ID and in the region that
/// it was planned for. It exists exactly if the environment has a jump role.
pub proof fn chain_leads_to_the_role(
    role: AwsAssumeRole,
    context: ConnectionContext,
    id: GlobalId,
    external_id: Option<Seq<char>>,
    region: Option<Seq<char>>,
)
    ensures
        match role.chain(context, id, external_id, region) {
            Ok(chain) => {
                &&& leads_to_role(chain, role, context, id)
                &&& chain.external_id == external_id
                &&& chain.region == region
            },
            Err(err) => context.aws_connection_role_arn is None && err
                == AwsError::NoConnectionRole,
        },
{
    made_of_three(context.environment_id@, "-"@, id.name());
}

/// A chain that is planned for use presents the external ID. It exists exactly if the
/// environment has a prefix and a jump role; the prefix is missed first.
pub proof fn guarded_chain_presents_the_external_id(
    role: AwsAssumeRole,
    context: ConnectionContext,
    id: GlobalId,
    region: Option<Seq<char>>,
)
    ensures
        match role.guarded_chain(context, id, region) {
            Ok(chain) => {
                &&& leads_to_role(chain, role, context, id)
                &&& presents_external_id(chain, context, id)
                &&& chain.region == region
            },
            Err(err) => if context.aws_external_id_prefix is None {
                err == AwsError::NoExternalIdPrefix
            } else {
                context.aws_connection_role_arn is None && err == AwsError::NoConnectionRole
            },
        },
{
    external_id_names_prefix_and_connection(role, context, id);
    made_of_three(context.environment_id@, "-"@, id.name());
}

/// The request for the jump role names the jump role and its session; the request for
/// the customer's role names the customer's role and its session. Only the latter
/// presents the external ID, and both are made in the region of the chain.
pub proof fn requests_take_their_own_parts(chain: AssumeRoleChainView)
    ensures
        chain.jump_request().role_arn == chain.jump_role_arn,
        chain.jump_request().session_name == Some(chain.jump_session_name),
        chain.jump_request().external_id is None,
        chain.jump_request().region == chain.region,
        chain.customer_request().role_arn == chain.role_arn,
        chain.customer_request().session_name == Some(chain.session_name),
        chain.customer_request().external_id == chain.external_id,
        chain.customer_request().region == chain.region,
{
}

/// Whether a JSON document is an object with exactly these names.
pub open spec fn has_names(json: Json, names: Set<Seq<char>>) -> bool {
    json is Object && json->Object_0.dom() == names
}

/// The example trust policy has one statement. It allows the jump role of the
/// environment, and nobody else, to assume the role, on the one condition that it
/// presents the external ID that a chain for the connection presents.
pub proof fn trust_policy_admits_the_jump_role(
    role: AwsAssumeRole,
    context: ConnectionContext,
    id: GlobalId,
    region: Option<Seq<char>>,
)
    ensures
        match role.trust_policy_spec(context, id) {
            Ok(policy) => {
                let statements = policy->Object_0["Statement"@];
                let statement = statements->List_0[0];
                let principal = statement->Object_0["Principal"@];
                let condition = statement->Object_0["Condition"@];
                let equals = condition->Object_0["StringEquals"@];
                let chain = role.guarded_chain(context, id, region);
                &&& has_names(policy, set!["Version"@, "Statement"@])
                &&& policy->Object_0["Version"@] == Json::Text("2012-10-17"@)
                &&& statements is List
                &&& statements->List_0.len() == 1
                &&& has_names(statement, set!["Effect"@, "Principal"@, "Action"@, "Condition"@])
                &&& statement->Object_0["Effect"@] == Json::Text("Allow"@)
                &&& statement->Object_0["Action"@] == Json::Text("sts:AssumeRole"@)
                &&& has_names(principal, set!["AWS"@])
                &&& context.aws_connection_role_arn is Some
                &&& principal->Object_0["AWS"@] == Json::Text(context.aws_connection_role_arn->0@)
                &&& has_names(condition, set!["StringEquals"@])
                &&& has_names(equals, set!["sts:ExternalId"@])
                &&& chain is Ok
                &&& chain->Ok_0.external_id is Some
                &&& equals->Object_0["sts:ExternalId"@] == Json::Text(chain->Ok_0.external_id->0)
            },
            Err(err) => if context.aws_connection_role_arn is None {
                err == AwsError::NoConnectionRole
            } else {
                context.aws_external_id_prefix is None && err == AwsError::NoExternalIdPrefix
            },
        },
{
    reveal_strlit("Version");
    reveal_strlit("Statement");
    reveal_strlit("Effect");
    reveal_strlit("Principal");
    reveal_strlit("Action");
    reveal_strlit("Condition");
    assert("Version"@[0] == 'V' && "Statement"@[0] == 'S');
    assert("Effect"@[0] == 'E' && "Principal"@[0] == 'P');
    assert("Action"@[0] == 'A' && "Condition"@[0] == 'C');
    if let Ok(policy) = role.trust_policy_spec(context, id) {
        let statement = policy->Object_0["Statement"@]->List_0[0];
        let principal = statement->Object_0["Principal"@];
        let condition = statement->Object_0["Condition"@];
        let equals = condition->Object_0["StringEquals"@];
        assert(policy->Object_0.dom() =~= set!["Version"@, "Statement"@]);
        assert(statement->Object_0.dom() =~= set![
            "Effect"@,
            "Principal"@,
            "Action"@,
            "Condition"@,
        ]);
        assert(principal->Object_0.dom() =~= set!["AWS"@]);
        assert(condition->Object_0.dom() =~= set!["StringEquals"@]);
        assert(equals->Object_0.dom() =~= set!["sts:ExternalId"@]);
    }
}

/// What loading gives is, part by part, what the credentials name: a string as it is,
/// and a secret as the store holds it. It fails exactly if one of the secrets that are
/// named cannot be read, and the error is that of the first such part.
pub proof fn loaded_keys_are_the_named_ones(credentials: AwsCredentials, store: SecretStore)
    ensures
        match credentials.outcome(credentials.first_step(), store) {
            Ok((access_key_id, secret_access_key, session_token)) => {
                &&& match credentials.access_key_id {
                    StringOrSecret::String(s) => access_key_id == s@,
                    StringOrSecret::Secret(id) => store(id) == Some(access_key_id),
                }
                &&& store(credentials.secret_access_key) == Some(secret_access_key)
                &&& match credentials.session_token {
                    None => session_token is None,
                    Some(StringOrSecret::String(s)) => session_token == Some(s@),
                    Some(StringOrSecret::Secret(id)) => session_token is Some && store(id)
                        == session_token,
                }
            },
            Err(err) => {
                let no_access_key_id = match credentials.access_key_id {
                    StringOrSecret::String(_) => false,
                    StringOrSecret::Secret(id) => store(id) is None,
                };
                let no_secret_access_key = store(credentials.secret_access_key) is None;
                if no_access_key_id {
                    err == AwsError::ReadAccessKeyId
                } else if no_secret_access_key {
                    err == AwsError::ReadSecretAccessKey
                } else {
                    &&& err == AwsError::ReadSessionToken
                    &&& credentials.session_token matches Some(StringOrSecret::Secret(id)) && store(
                        id,
                    ) is None
                }
            },
        },
{
    reveal_with_fuel(AwsCredentials::outcome, 4);
}

/// Whether a step that follows the secret access key is right: it ends with both keys
/// and the token, or asks for the secret that holds the token and keeps both keys.
pub open spec fn follows_both_keys(
    step: LoadStepView,
    credentials: AwsCredentials,
    access_key_id: Seq<char>,
    secret_access_key: Seq<char>,
) -> bool {
    match credentials.session_token {
        None => step == LoadStepView::Done(Ok((access_key_id, secret_access_key, None))),
        Some(StringOrSecret::String(token)) => step == LoadStepView::Done(
            Ok((access_key_id, secret_access_key, Some(token@))),
        ),
        Some(StringOrSecret::Secret(id)) => step == LoadStepView::ReadSecret(
            id,
            LoadPointView::SessionToken { access_key_id, secret_access_key },
        ),
    }
}

/// Each step of loading asks for the secret of the next part and keeps the parts that
/// came before. A part that cannot be read ends it with the error for that part.
pub proof fn loading_steps_keep_the_parts(
    credentials: AwsCredentials,
    access_key_id: Seq<char>,
    secret_access_key: Seq<char>,
    reply: Seq<char>,
)
    ensures
        match credentials.access_key_id {
            StringOrSecret::Secret(id) => credentials.first_step() == LoadStepView::ReadSecret(
                id,
                LoadPointView::AccessKeyId,
            ),
            StringOrSecret::String(key) => credentials.first_step() == LoadStepView::ReadSecret(
                credentials.secret_access_key,
                LoadPointView::SecretAccessKey { access_key_id: key@ },
            ),
        },
        credentials.next_step(LoadPointView::AccessKeyId, Some(reply)) == LoadStepView::ReadSecret(
            credentials.secret_access_key,
            LoadPointView::SecretAccessKey { access_key_id: reply },
        ),
        credentials.next_step(LoadPointView::AccessKeyId, None) == LoadStepView::Done(
            Err(AwsError::ReadAccessKeyId),
        ),
        follows_both_keys(
            credentials.next_step(LoadPointView::SecretAccessKey { access_key_id }, Some(reply)),
            credentials,
            access_key_id,
            reply,
        ),
        credentials.next_step(LoadPointView::SecretAccessKey { access_key_id }, None)
            == LoadStepView::Done(Err(AwsError::ReadSecretAccessKey)),
        credentials.next_step(
            LoadPointView::SessionToken { access_key_id, secret_access_key },
            Some(reply),
        ) == LoadStepView::Done(Ok((access_key_id, secret_access_key, Some(reply)))),
        credentials.next_step(
            LoadPointView::SessionToken { access_key_id, secret_access_key },
            None,
        ) == LoadStepView::Done(Err(AwsError::ReadSessionToken)),
{
}

/// Whether settings have the region and the endpoint of the connection.
pub open spec fn keeps_region_and_endpoint(
    settings: SdkSettingsView,
    connection: AwsConnection,
) -> bool {
    &&& settings.region == connection.region.deep_view()
    &&& settings.endpoint == connection.endpoint.deep_view()
}

/// Whether settings reach the role of the connection in the given region.
pub open spec fn reaches_role(
    settings: SdkSettingsView,
    connection: AwsConnection,
    context: ConnectionContext,
    id: GlobalId,
    region: Option<Seq<char>>,
) -> bool {
    &&& keeps_region_and_endpoint(settings, connection)
    &&& connection.auth is AssumeRole
    &&& settings.credentials is AssumeRole
    &&& leads_to_role(
        settings.credentials->AssumeRole_0,
        connection.auth->AssumeRole_0,
        context,
        id,
    )
    &&& settings.credentials->AssumeRole_0.region == region
}

/// Whether a step ends configuring a role in the given region as it should: with
/// settings that reach the role and present the external ID, or with what the
/// environment lacks.
pub open spec fn ends_at_role(
    step: SdkStepView,
    connection: AwsConnection,
    context: ConnectionContext,
    id: GlobalId,
    region: Option<Seq<char>>,
) -> bool {
    &&& step is Done
    &&& match step->Done_0 {
        Ok(settings) => {
            &&& reaches_role(settings, connection, context, id, region)
            &&& presents_external_id(settings.credentials->AssumeRole_0, context, id)
        },
        Err(err) => if context.aws_external_id_prefix is None {
            err == AwsError::NoExternalIdPrefix
        } else {
            context.aws_connection_role_arn is None && err == AwsError::NoConnectionRole
        },
    }
}

/// The first step of configuring the SDK asks for the first secret that the keys need,
/// or for the default region where a role has none. A role with a region needs to ask
/// for nothing.
pub proof fn configuring_starts_with_what_is_missing(
    connection: AwsConnection,
    context: ConnectionContext,
    id: GlobalId,
)
    ensures
        match (connection.auth, connection.region) {
            (AwsAuth::Credentials(credentials), _) => match credentials.access_key_id {
                StringOrSecret::Secret(secret) => connection.first_sdk_step(context, id)
                    == SdkStepView::ReadSecret(secret, LoadPointView::AccessKeyId),
                StringOrSecret::String(key) => connection.first_sdk_step(context, id)
                    == SdkStepView::ReadSecret(
                    credentials.secret_access_key,
                    LoadPointView::SecretAccessKey { access_key_id: key@ },
                ),
            },
            (AwsAuth::AssumeRole(_), None) => connection.first_sdk_step(context, id)
                == SdkStepView::FetchDefaultRegion,
            (AwsAuth::AssumeRole(_), Some(region)) => ends_at_role(
                connection.first_sdk_step(context, id),
                connection,
                context,
                id,
                Some(region@),
            ),
        },
{
    if let AwsAuth::AssumeRole(role) = connection.auth {
        if let Some(region) = connection.region {
            guarded_chain_presents_the_external_id(role, context, id, Some(region@));
        }
    }
}

/// Configuring a role in a region ends with settings that reach it there.
pub proof fn configuring_a_role_ends_there(
    connection: AwsConnection,
    context: ConnectionContext,
    id: GlobalId,
    region: Option<Seq<char>>,
)
    requires
        connection.auth is AssumeRole,
    ensures
        ends_at_role(
            connection.sdk_role_step(context, id, region),
            connection,
            context,
            id,
            region,
        ),
{
    guarded_chain_presents_the_external_id(
        connection.auth->AssumeRole_0,
        context,
        id,
        region,
    );
}

/// Configuring with keys asks for the secrets that loading the keys asks for, and ends
/// as loading ends: with the keys that were loaded, in the region and at the endpoint
/// of the connection, or with the same error.
pub proof fn configuring_keys_follows_loading(connection: AwsConnection, step: LoadStepView)
    ensures
        match step {
            LoadStepView::ReadSecret(id, point) => connection.sdk_step(step)
                == SdkStepView::ReadSecret(id, point),
            LoadStepView::Done(Ok(keys)) => {
                &&& connection.sdk_step(step) matches SdkStepView::Done(Ok(settings))
                &&& settings.credentials == CredentialsSourceView::Keys(keys)
                &&& keeps_region_and_endpoint(settings, connection)
            },
            LoadStepView::Done(Err(err)) => connection.sdk_step(step) == SdkStepView::Done(
                Err(err),
            ),
        },
{
}

/// However a connection authenticates, the SDK is configured with the region and the
/// endpoint of the connection. With keys, it is configured with the keys; with a role,
/// it reaches the role in the configured region or else in the default one.
pub proof fn configuration_keeps_region_and_endpoint<E>(
    connection: AwsConnection,
    context: ConnectionContext,
    id: GlobalId,
    world: World<E>,
)
    ensures
        connection.sdk_outcome(context, id, connection.first_sdk_step(context, id), world)
            matches Ok(settings) ==> {
            &&& settings.endpoint == connection.endpoint.deep_view()
            &&& settings.region == connection.region.deep_view()
            &&& match connection.auth {
                AwsAuth::Credentials(credentials) => {
                    &&& settings.credentials is Keys
                    &&& credentials.outcome(credentials.first_step(), world.secrets) == Ok::<
                        Keys,
                        AwsError,
                    >(settings.credentials->Keys_0)
                },
                AwsAuth::AssumeRole(_) => {
                    let region = match connection.region {
                        Some(region) => Some(region@),
                        None => world.region,
                    };
                    &&& reaches_role(settings, connection, context, id, region)
                    &&& presents_external_id(settings.credentials->AssumeRole_0, context, id)
                },
            }
        },
{
    configuring_gives_the_settings(connection, context, id, world);
    match connection.auth {
        AwsAuth::Credentials(credentials) => {
            loading_gives_the_keys(credentials, world.secrets);
        },
        AwsAuth::AssumeRole(role) => {
            guarded_chain_presents_the_external_id(
                role,
                context,
                id,
                connection.region_or(world.region),
            );
        },
    }
}

/// Validating asks for what configuring asks for, and hands the settings that it ends
/// with to AWS. Where configuring fails, so does validating, with the same error.
pub proof fn validating_follows_configuring<E>(connection: AwsConnection, step: SdkStepView)
    ensures
        match step {
            SdkStepView::ReadSecret(id, point) => connection.validate_step::<E>(step)
                == ValidateStepView::<E>::ReadSecret(id, point),
            SdkStepView::FetchDefaultRegion => connection.validate_step::<E>(step)
                == ValidateStepView::<E>::FetchDefaultRegion,
            SdkStepView::Done(Ok(settings)) => connection.validate_step::<E>(step)
                == ValidateStepView::<E>::GetCallerIdentity(settings),
            SdkStepView::Done(Err(err)) => connection.validate_step::<E>(step)
                == ValidateStepView::<E>::Done(Err(ValidateError::Connection(err))),
        },
{
}

/// Whether a step probes the role in the given region as it should: with settings that
/// reach the role and present no external ID, or with what the environment lacks.
pub open spec fn probes_role<E>(
    step: ValidateStepView<E>,
    connection: AwsConnection,
    context: ConnectionContext,
    id: GlobalId,
    region: Option<Seq<char>>,
) -> bool {
    match step {
        ValidateStepView::ProbeCallerIdentity(settings) => {
            &&& reaches_role(settings, connection, context, id, region)
            &&& settings.credentials->AssumeRole_0.external_id is None
        },
        ValidateStepView::Done(result) => {
            &&& context.aws_connection_role_arn is None
            &&& result == Err::<(), ValidateError<E>>(
                ValidateError::Connection(AwsError::NoConnectionRole),
            )
        },
        _ => false,
    }
}

/// Once AWS has replied, validating ends with its error, or for keys with success. A
/// role is probed without an external ID, in its own region or else in the default
/// one, which is asked for.
pub proof fn accepted_roles_are_probed<E>(
    connection: AwsConnection,
    context: ConnectionContext,
    id: GlobalId,
    identity: Result<(), E>,
)
    ensures
        ({
            let step = connection.identity_step(context, id, identity);
            match (identity, connection.auth, connection.region) {
                (Err(err), _, _) => step == ValidateStepView::Done(
                    Err(ValidateError::CallerIdentity(err)),
                ),
                (Ok(()), AwsAuth::Credentials(_), _) => step == ValidateStepView::<E>::Done(Ok(())),
                (Ok(()), AwsAuth::AssumeRole(_), None) => step
                    == ValidateStepView::<E>::FetchProbeRegion,
                (Ok(()), AwsAuth::AssumeRole(_), Some(region)) => probes_role(
                    step,
                    connection,
                    context,
                    id,
                    Some(region@),
                ),
            }
        }),
{
    if let AwsAuth::AssumeRole(role) = connection.auth {
        if let Some(region) = connection.region {
            chain_leads_to_the_role(role, context, id, None, Some(region@));
        }
    }
}

/// A role is probed in the region that was found. The probe decides: validating fails
/// exactly if AWS accepts it.
pub proof fn probe_must_be_refused<E>(
    connection: AwsConnection,
    context: ConnectionContext,
    id: GlobalId,
    region: Option<Seq<char>>,
)
    requires
        connection.auth is AssumeRole,
    ensures
        probes_role(
            connection.probe_step::<E>(context, id, region),
            connection,
            context,
            id,
            region,
        ),
        AwsConnection::probed_step::<E>(true) == ValidateStepView::<E>::Done(
            Err(ValidateError::Connection(AwsError::ExternalIdNotRequired)),
        ),
        AwsConnection::probed_step::<E>(false) == ValidateStepView::<E>::Done(Ok(())),
{
    chain_leads_to_the_role(connection.auth->AssumeRole_0, context, id, None, region);
}

/// A valid role is one that AWS accepts with the external ID and refuses without one,
/// in settings that reach the role and keep the connection's region and endpoint.
pub proof fn valid_role_is_accepted_only_with_external_id<E>(
    connection: AwsConnection,
    context: ConnectionContext,
    id: GlobalId,
    world: World<E>,
)
    requires
        connection.auth is AssumeRole,
        connection.validate_outcome(
            context,
            id,
            connection.validate_step(connection.first_sdk_step(context, id)),
            world,
        ) is Ok,
    ensures
        ({
            let first = match connection.region {
                Some(region) => Some(region@),
                None => world.region,
            };
            let again = match connection.region {
                Some(region) => Some(region@),
                None => world.probe_region,
            };
            &&& exists|settings: SdkSettingsView|
                {
                    &&& #[trigger] (world.identity)(settings) is Ok
                    &&& reaches_role(settings, connection, context, id, first)
                    &&& presents_external_id(settings.credentials->AssumeRole_0, context, id)
                }
            &&& exists|probe: SdkSettingsView|
                {
                    &&& #[trigger] (world.identity)(probe) is Err
                    &&& reaches_role(probe, connection, context, id, again)
                    &&& probe.credentials->AssumeRole_0.external_id is None
                }
        }),
{
    let role = connection.auth->AssumeRole_0;
    validation_outcome(connection, context, id, world);
    guarded_chain_presents_the_external_id(role, context, id, connection.region_or(world.region));
    chain_leads_to_the_role(role, context, id, None, connection.region_or(world.probe_region));
    let settings = connection.settings_in(context, id, world)->Ok_0;
    let probe = connection.probe_settings(context, id, world)->Ok_0;
    assert((world.identity)(settings) is Ok);
    assert((world.identity)(probe) is Err);
}

/// The plain text of a region is its name.
pub proof fn region_text_is_its_name(region: Region)
    ensures
        region_view(Some(region)) == Some(region_name(region)),
        region_view(None) is None,
{
}

/// The plain text of a chain is that of its parts, each under its own name.
pub proof fn chain_text_is_that_of_its_parts(chain: AssumeRoleChain, err: AwsError)
    ensures
        chain@.jump_role_arn == chain.jump_role_arn@,
        chain@.jump_session_name == chain.jump_session_name@,
        chain@.role_arn == chain.role_arn@,
        chain@.session_name == chain.session_name@,
        chain@.external_id == chain.external_id.deep_view(),
        chain@.region == region_view(chain.region),
        chain_view(Ok(chain)) == Ok::<AssumeRoleChainView, AwsError>(chain@),
        chain_view(Err(err)) == Err::<AssumeRoleChainView, AwsError>(err),
{
}

/// The plain text of settings is that of their parts, each under its own name.
pub proof fn settings_text_is_that_of_its_parts(settings: SdkSettings)
    ensures
        settings@.region == region_view(settings.region),
        settings@.endpoint == settings.endpoint.deep_view(),
        match settings.credentials {
            CredentialsSource::Keys(credentials) => settings@.credentials
                == CredentialsSourceView::Keys(credentials_keys(credentials)),
            CredentialsSource::AssumeRole(chain) => settings@.credentials
                == CredentialsSourceView::AssumeRole(chain@),
        },
{
}

/// The plain text of a point keeps its kind and the parts that were loaded.
pub proof fn point_text_keeps_the_parts(point: LoadPoint)
    ensures
        match point {
            LoadPoint::AccessKeyId => point@ == LoadPointView::AccessKeyId,
            LoadPoint::SecretAccessKey { access_key_id } => point@
                == (LoadPointView::SecretAccessKey { access_key_id: access_key_id@ }),
            LoadPoint::SessionToken { access_key_id, secret_access_key } => point@
                == (LoadPointView::SessionToken {
                access_key_id: access_key_id@,
                secret_access_key: secret_access_key@,
            }),
        },
{
}

/// The plain text of a step in loading keeps its kind and what it carries.
pub proof fn load_step_text_keeps_its_kind(step: LoadStep)
    ensures
        match step {
            LoadStep::ReadSecret(id, point) => step@ == LoadStepView::ReadSecret(id, point@),
            LoadStep::Done(Ok(credentials)) => step@ == LoadStepView::Done(
                Ok(credentials_keys(credentials)),
            ),
            LoadStep::Done(Err(err)) => step@ == LoadStepView::Done(Err(err)),
        },
{
}

/// The plain text of a step in configuring keeps its kind and what it carries.
pub proof fn sdk_step_text_keeps_its_kind(step: SdkStep)
    ensures
        match step {
            SdkStep::ReadSecret(id, point) => step@ == SdkStepView::ReadSecret(id, point@),
            SdkStep::FetchDefaultRegion => step@ == SdkStepView::FetchDefaultRegion,
            SdkStep::Done(Ok(settings)) => step@ == SdkStepView::Done(Ok(settings@)),
            SdkStep::Done(Err(err)) => step@ == SdkStepView::Done(Err(err)),
        },
{
}

/// The plain text of a step in validating keeps its kind and what it carries.
pub proof fn validate_step_text_keeps_its_kind<E>(step: ValidateStep<E>)
    ensures
        match step {
            ValidateStep::ReadSecret(id, point) => step@ == ValidateStepView::<E>::ReadSecret(
                id,
                point@,
            ),
            ValidateStep::FetchDefaultRegion => step@ == ValidateStepView::<E>::FetchDefaultRegion,
            ValidateStep::GetCallerIdentity(settings) => step@
                == ValidateStepView::<E>::GetCallerIdentity(settings@),
            ValidateStep::FetchProbeRegion => step@ == ValidateStepView::<E>::FetchProbeRegion,
            ValidateStep::ProbeCallerIdentity(settings) => step@
                == ValidateStepView::<E>::ProbeCallerIdentity(settings@),
            ValidateStep::Done(result) => step@ == ValidateStepView::<E>::Done(result),
        },
{
}

/// A role and its message have the same ARN and the same session name, both ways.
pub proof fn role_message_has_the_same_fields(role: AwsAssumeRole, proto: ProtoAwsAssumeRole)
    ensures
        role.encoding().arn == role.arn,
        role.encoding().session_name == role.session_name,
        AwsAssumeRole::may_decode(proto),
        AwsAssumeRole::decoding(proto) matches Ok(decoded) && decoded.arn == proto.arn
            && decoded.session_name == proto.session_name,
{
}

/// Credentials and their message have the same access key ID, secret access key and
/// session token, both ways. The two keys are required, and the first field that is
/// absent or ill-formed decides the error.
pub proof fn credentials_message_has_the_same_fields(
    credentials: AwsCredentials,
    proto: ProtoAwsCredentials,
)
    ensures
        credentials.encoding().access_key_id == Some(credentials.access_key_id.encoding()),
        credentials.encoding().secret_access_key == Some(credentials.secret_access_key.encoding()),
        match credentials.session_token {
            Some(token) => credentials.encoding().session_token == Some(token.encoding()),
            None => credentials.encoding().session_token is None,
        },
        AwsCredentials::may_decode(proto),
        match AwsCredentials::decoding(proto) {
            Ok(decoded) => {
                &&& proto.access_key_id matches Some(field) && StringOrSecret::decoding(field)
                    == Ok::<StringOrSecret, TryFromProtoError>(decoded.access_key_id)
                &&& proto.secret_access_key matches Some(field) && GlobalId::decoding(field)
                    == Ok::<GlobalId, TryFromProtoError>(decoded.secret_access_key)
                &&& match proto.session_token {
                    Some(field) => decoded.session_token is Some && StringOrSecret::decoding(field)
                        == Ok::<StringOrSecret, TryFromProtoError>(decoded.session_token->0),
                    None => decoded.session_token is None,
                }
            },
            Err(err) => if proto.access_key_id is None {
                err == TryFromProtoError::MissingField("ProtoAwsCredentials::access_key_id")
            } else if StringOrSecret::decoding(proto.access_key_id->0) is Err {
                StringOrSecret::decoding(proto.access_key_id->0) == Err::<
                    StringOrSecret,
                    TryFromProtoError,
                >(err)
            } else if proto.secret_access_key is None {
                err == TryFromProtoError::MissingField("ProtoAwsCredentials::secret_access_key")
            } else if GlobalId::decoding(proto.secret_access_key->0) is Err {
                GlobalId::decoding(proto.secret_access_key->0) == Err::<
                    GlobalId,
                    TryFromProtoError,
                >(err)
            } else {
                proto.session_token matches Some(field) && StringOrSecret::decoding(field) == Err::<
                    StringOrSecret,
                    TryFromProtoError,
                >(err)
            },
        },
{
}

/// A connection and its message authenticate in the same way and have the same region
/// and endpoint, both ways. Decoding fails exactly if the authentication is ill-formed.
pub proof fn connection_message_has_the_same_fields(
    connection: AwsConnection,
    proto: ProtoAwsConnection,
)
    ensures
        connection.encoding().region == connection.region,
        connection.encoding().endpoint == connection.endpoint,
        match connection.auth {
            AwsAuth::Credentials(credentials) => connection.encoding().auth == Some(
                ProtoAwsAuth::Credentials(credentials.encoding()),
            ),
            AwsAuth::AssumeRole(role) => connection.encoding().auth == Some(
                ProtoAwsAuth::AssumeRole(role.encoding()),
            ),
        },
        AwsConnection::may_decode(proto) <==> proto.auth is Some,
        proto.auth matches Some(auth) ==> match AwsConnection::decoding(proto) {
            Ok(decoded) => {
                &&& decoded.region == proto.region
                &&& decoded.endpoint == proto.endpoint
                &&& match auth {
                    ProtoAwsAuth::Credentials(field) => decoded.auth is Credentials
                        && AwsCredentials::decoding(field) == Ok::<
                        AwsCredentials,
                        TryFromProtoError,
                    >(decoded.auth->Credentials_0),
                    ProtoAwsAuth::AssumeRole(field) => decoded.auth is AssumeRole
                        && AwsAssumeRole::decoding(field) == Ok::<AwsAssumeRole, TryFromProtoError>(
                        decoded.auth->AssumeRole_0,
                    ),
                }
            },
            Err(err) => auth matches ProtoAwsAuth::Credentials(field) && AwsCredentials::decoding(
                field,
            ) == Err::<AwsCredentials, TryFromProtoError>(err),
        },
{
}

/// Each error is described in its own words.
pub proof fn errors_are_described(err: AwsError)
    ensures
        ({
            let text = err.description();
            ||| err is ReadAccessKeyId && text
                == "internal error: failed to read access key ID from secret store"@
            ||| err is ReadSecretAccessKey && text
                == "internal error: failed to read secret access key from secret store"@
            ||| err is ReadSessionToken && text
                == "internal error: failed to read session token from secret store"@
            ||| err is NoConnectionRole && text
                == "internal error: no AWS connection role configured"@
            ||| err is NoExternalIdPrefix && text
                == "internal error: no AWS external ID prefix configured"@
            ||| err is ExternalIdNotRequired && text
                == "AWS connection role does not require an external ID; this is INSECURE and allows any Materialize customer access to your AWS account"@
        }),
{
}

} // verus!
