use aws_credential_types::provider::SharedCredentialsProvider;
use aws_credential_types::Credentials;
use environmentd::aws::connection::{CredentialsSource, SdkStep, ValidateStep};
use environmentd::aws::credentials::{LoadPoint, LoadStep};
use environmentd::aws::sdk::config_loader;
use environmentd::aws::types::{
    AwsAssumeRole, AwsAuth, AwsConnection, AwsCredentials, AwsError, AwsExternalIdPrefix,
    ConnectionContext, ValidateError,
};
use environmentd::global_id::{GlobalId, StringOrSecret};

fn context() -> ConnectionContext {
    ConnectionContext {
        environment_id: "aws-us-east-1-org-0".to_string(),
        aws_external_id_prefix: Some(
            AwsExternalIdPrefix::new_from_cli_argument_or_environment_variable("eb5cb59b"),
        ),
        aws_connection_role_arn: Some("arn:aws:iam::123456789000:role/Jump".to_string()),
    }
}

fn role(session_name: Option<&str>) -> AwsAssumeRole {
    AwsAssumeRole {
        arn: "arn:aws:iam::000000000000:role/Customer".to_string(),
        session_name: session_name.map(|name| name.to_string()),
    }
}

fn role_connection(region: Option<&str>) -> AwsConnection {
    AwsConnection {
        auth: AwsAuth::AssumeRole(role(None)),
        region: region.map(|name| name.to_string()),
        endpoint: None,
    }
}

fn key_connection() -> AwsConnection {
    AwsConnection {
        auth: AwsAuth::Credentials(AwsCredentials {
            access_key_id: StringOrSecret::String("access".to_string()),
            secret_access_key: GlobalId::User(1),
            session_token: None,
        }),
        region: Some("eu-west-1".to_string()),
        endpoint: Some("http://localhost:4566".to_string()),
    }
}

fn region(name: &str) -> aws_types::region::Region {
    aws_types::region::Region::new(name.to_string())
}

#[test]
fn external_id_joins_prefix_and_connection() {
    let id = role(None).external_id(&context(), GlobalId::User(42)).unwrap();
    assert_eq!(id, "mz_eb5cb59b_u42");
}

#[test]
fn external_ids_of_different_connections_differ() {
    let a = role(None).external_id(&context(), GlobalId::User(4)).unwrap();
    let b = role(None).external_id(&context(), GlobalId::System(4)).unwrap();
    let c = role(None).external_id(&context(), GlobalId::User(42)).unwrap();
    assert_ne!(a, b);
    assert_ne!(a, c);
}

#[test]
fn external_id_needs_prefix() {
    let mut context = context();
    context.aws_external_id_prefix = None;
    assert_eq!(
        role(None).external_id(&context, GlobalId::User(1)),
        Err(AwsError::NoExternalIdPrefix)
    );
}

#[test]
fn trust_policy_is_exact() {
    let policy = role(None)
        .example_trust_policy(&context(), GlobalId::User(1))
        .unwrap();
    let expected: serde_json::Value = serde_json::from_str(
        r#"{
            "Version": "2012-10-17",
            "Statement": [{
                "Effect": "Allow",
                "Principal": {"AWS": "arn:aws:iam::123456789000:role/Jump"},
                "Action": "sts:AssumeRole",
                "Condition": {"StringEquals": {"sts:ExternalId": "mz_eb5cb59b_u1"}}
            }]
        }"#,
    )
    .unwrap();
    assert_eq!(policy, expected);
}

#[test]
fn trust_policy_reports_missing_role_first() {
    let mut context = context();
    context.aws_external_id_prefix = None;
    assert!(matches!(
        role(None).example_trust_policy(&context, GlobalId::User(1)),
        Err(AwsError::NoExternalIdPrefix)
    ));
    context.aws_connection_role_arn = None;
    assert!(matches!(
        role(None).example_trust_policy(&context, GlobalId::User(1)),
        Err(AwsError::NoConnectionRole)
    ));
}

#[test]
fn chain_has_default_session_names() {
    let chain = role(None)
        .load_credentials_provider(&context(), GlobalId::User(7), Some(region("us-east-1")))
        .unwrap();
    assert_eq!(chain.jump_role_arn, "arn:aws:iam::123456789000:role/Jump");
    assert_eq!(chain.jump_session_name, "aws-us-east-1-org-0-u7");
    assert_eq!(chain.role_arn, "arn:aws:iam::000000000000:role/Customer");
    assert_eq!(chain.session_name, "aws-us-east-1-org-0-u7");
    assert_eq!(chain.external_id, Some("mz_eb5cb59b_u7".to_string()));
    assert_eq!(chain.region, Some(region("us-east-1")));
}

#[test]
fn chain_respects_configured_session_name() {
    let chain = role(Some("mine"))
        .load_credentials_provider(&context(), GlobalId::User(7), None)
        .unwrap();
    assert_eq!(chain.jump_session_name, "aws-us-east-1-org-0-u7");
    assert_eq!(chain.session_name, "mine");
    assert_eq!(chain.region, None);
}

#[test]
fn chain_reports_missing_prefix_first() {
    let mut context = context();
    context.aws_connection_role_arn = None;
    let id = GlobalId::User(7);
    assert!(matches!(
        role(None).load_credentials_provider(&context, id, None),
        Err(AwsError::NoConnectionRole)
    ));
    context.aws_external_id_prefix = None;
    assert!(matches!(
        role(None).load_credentials_provider(&context, id, None),
        Err(AwsError::NoExternalIdPrefix)
    ));
}

#[test]
fn session_names_of_different_connections_differ() {
    let a = role(None)
        .load_credentials_provider(&context(), GlobalId::User(7), None)
        .unwrap();
    let b = role(None)
        .load_credentials_provider(&context(), GlobalId::Transient(7), None)
        .unwrap();
    assert_ne!(a.session_name, b.session_name);
}

fn secret_credentials() -> AwsCredentials {
    AwsCredentials {
        access_key_id: StringOrSecret::Secret(GlobalId::User(1)),
        secret_access_key: GlobalId::User(2),
        session_token: Some(StringOrSecret::Secret(GlobalId::User(3))),
    }
}

/// Loads credentials from a store that lacks one secret, and lists what was read.
fn load(
    credentials: &AwsCredentials,
    missing: Option<GlobalId>,
) -> (
    Result<aws_credential_types::Credentials, AwsError>,
    Vec<GlobalId>,
) {
    let mut read: Vec<GlobalId> = Vec::new();
    let mut step = credentials.load_credentials_provider();
    loop {
        match step {
            LoadStep::ReadSecret(id, point) => {
                read.push(id);
                let reply = if Some(id) == missing {
                    None
                } else {
                    Some(format!("value of {}", id.to_text()))
                };
                step = credentials.resume(point, reply);
            }
            LoadStep::Done(result) => return (result, read),
        }
    }
}

#[test]
fn credentials_come_from_secrets_in_order() {
    let (credentials, read) = load(&secret_credentials(), None);
    let credentials = credentials.unwrap();
    assert_eq!(credentials.access_key_id(), "value of u1");
    assert_eq!(credentials.secret_access_key(), "value of u2");
    assert_eq!(credentials.session_token(), Some("value of u3"));
    assert_eq!(
        read,
        vec![GlobalId::User(1), GlobalId::User(2), GlobalId::User(3)]
    );
}

#[test]
fn credentials_stop_at_first_unreadable_secret() {
    let credentials = secret_credentials();
    let (result, read) = load(&credentials, Some(GlobalId::User(1)));
    assert_eq!(result, Err(AwsError::ReadAccessKeyId));
    assert_eq!(read, vec![GlobalId::User(1)]);
    let (result, read) = load(&credentials, Some(GlobalId::User(2)));
    assert_eq!(result, Err(AwsError::ReadSecretAccessKey));
    assert_eq!(read, vec![GlobalId::User(1), GlobalId::User(2)]);
    let (result, read) = load(&credentials, Some(GlobalId::User(3)));
    assert_eq!(result, Err(AwsError::ReadSessionToken));
    assert_eq!(read.len(), 3);
}

#[test]
fn plain_parts_of_credentials_need_no_secret() {
    let credentials = AwsCredentials {
        access_key_id: StringOrSecret::String("plain".to_string()),
        secret_access_key: GlobalId::System(9),
        session_token: Some(StringOrSecret::String("token".to_string())),
    };
    let (result, read) = load(&credentials, None);
    let result = result.unwrap();
    assert_eq!(result.access_key_id(), "plain");
    assert_eq!(result.secret_access_key(), "value of s9");
    assert_eq!(result.session_token(), Some("token"));
    assert_eq!(read, vec![GlobalId::System(9)]);
}

#[test]
fn sdk_settings_of_keys() {
    let connection = key_connection();
    let step = connection.load_sdk_config(&context(), GlobalId::User(5));
    let point = match step {
        SdkStep::ReadSecret(GlobalId::User(1), point) => point,
        _ => panic!("expected to read the secret access key"),
    };
    assert!(matches!(point, LoadPoint::SecretAccessKey { .. }));
    match connection.resume_with_secret(point, Some("secret".to_string())) {
        SdkStep::Done(Ok(settings)) => {
            assert_eq!(settings.region, Some(region("eu-west-1")));
            assert_eq!(settings.endpoint, Some("http://localhost:4566".to_string()));
            match settings.credentials {
                CredentialsSource::Keys(keys) => {
                    assert_eq!(keys.access_key_id(), "access");
                    assert_eq!(keys.secret_access_key(), "secret");
                    assert_eq!(keys.session_token(), None);
                }
                CredentialsSource::AssumeRole(_) => panic!("expected keys"),
            }
        }
        _ => panic!("expected settings"),
    }
}

#[test]
fn sdk_settings_of_role_use_configured_region() {
    match role_connection(Some("us-west-2")).load_sdk_config(&context(), GlobalId::User(5)) {
        SdkStep::Done(Ok(settings)) => {
            assert_eq!(settings.region, Some(region("us-west-2")));
            match settings.credentials {
                CredentialsSource::AssumeRole(chain) => {
                    assert_eq!(chain.region, Some(region("us-west-2")));
                    assert_eq!(chain.external_id, Some("mz_eb5cb59b_u5".to_string()));
                }
                CredentialsSource::Keys(_) => panic!("expected a role"),
            }
        }
        _ => panic!("expected settings"),
    }
}

#[test]
fn sdk_settings_of_role_fall_back_to_default_region() {
    let connection = role_connection(None);
    let id = GlobalId::User(5);
    assert!(matches!(
        connection.load_sdk_config(&context(), id),
        SdkStep::FetchDefaultRegion
    ));
    match connection.resume_with_region(&context(), id, Some(region("sa-east-1"))) {
        SdkStep::Done(Ok(settings)) => {
            assert_eq!(settings.region, None);
            match settings.credentials {
                CredentialsSource::AssumeRole(chain) => {
                    assert_eq!(chain.region, Some(region("sa-east-1")));
                }
                CredentialsSource::Keys(_) => panic!("expected a role"),
            }
        }
        _ => panic!("expected settings"),
    }
}

/// Validates a connection whose secrets can be read. Lists the external IDs that
/// were presented to AWS, which accepts a caller as `accepts` says.
fn validate(
    connection: &AwsConnection,
    context: &ConnectionContext,
    accepts: fn(Option<&str>) -> bool,
) -> (Result<(), ValidateError<&'static str>>, Vec<Option<String>>) {
    let id = GlobalId::User(5);
    let mut presented: Vec<Option<String>> = Vec::new();
    let mut step = connection.validate(id, context);
    loop {
        step = match step {
            ValidateStep::ReadSecret(_, point) => {
                connection.validate_with_secret(point, Some("value".to_string()))
            }
            ValidateStep::FetchDefaultRegion => {
                connection.validate_with_region(id, context, Some(region("us-east-1")))
            }
            ValidateStep::FetchProbeRegion => {
                connection.validate_with_probe_region(id, context, Some(region("us-east-1")))
            }
            ValidateStep::GetCallerIdentity(settings) => {
                let external_id = match settings.credentials {
                    CredentialsSource::AssumeRole(chain) => chain.external_id,
                    CredentialsSource::Keys(_) => None,
                };
                let accepted = accepts(external_id.as_deref());
                presented.push(external_id);
                let identity = if accepted { Ok(()) } else { Err("denied") };
                connection.validate_with_identity(id, context, identity)
            }
            ValidateStep::ProbeCallerIdentity(settings) => {
                let external_id = match settings.credentials {
                    CredentialsSource::AssumeRole(chain) => chain.external_id,
                    CredentialsSource::Keys(_) => panic!("keys are not probed"),
                };
                let accepted = accepts(external_id.as_deref());
                presented.push(external_id);
                AwsConnection::validate_with_probe(accepted)
            }
            ValidateStep::Done(result) => return (result, presented),
        };
    }
}

#[test]
fn role_that_requires_external_id_is_valid() {
    for name in [None, Some("us-east-1")] {
        let (result, presented) = validate(&role_connection(name), &context(), |id| id.is_some());
        assert_eq!(result, Ok(()));
        assert_eq!(presented, vec![Some("mz_eb5cb59b_u5".to_string()), None]);
    }
}

#[test]
fn role_that_takes_any_caller_is_insecure() {
    let (result, _) = validate(&role_connection(None), &context(), |_| true);
    assert_eq!(
        result,
        Err(ValidateError::Connection(AwsError::ExternalIdNotRequired))
    );
    assert_eq!(
        AwsError::ExternalIdNotRequired.message(),
        "AWS connection role does not require an external ID; \
         this is INSECURE and allows any Materialize customer \
         access to your AWS account"
    );
}

#[test]
fn rejected_caller_is_not_probed() {
    let (result, presented) = validate(&role_connection(None), &context(), |_| false);
    assert_eq!(result, Err(ValidateError::CallerIdentity("denied")));
    assert_eq!(presented.len(), 1);
}

#[test]
fn validation_reports_missing_context() {
    let mut context = context();
    context.aws_connection_role_arn = None;
    let (result, presented) = validate(&role_connection(None), &context, |_| true);
    assert_eq!(
        result,
        Err(ValidateError::Connection(AwsError::NoConnectionRole))
    );
    assert!(presented.is_empty());
}

#[test]
fn keys_are_valid_if_accepted() {
    let (result, presented) = validate(&key_connection(), &context(), |_| true);
    assert_eq!(result, Ok(()));
    assert_eq!(presented, vec![None]);
    let (result, _) = validate(&key_connection(), &context(), |_| false);
    assert_eq!(result, Err(ValidateError::CallerIdentity("denied")));
}

#[test]
fn connections_are_not_validated_by_default() {
    assert!(!key_connection().validate_by_default());
    assert!(!role_connection(None).validate_by_default());
}

#[test]
fn error_messages_are_as_documented() {
    assert_eq!(
        AwsError::ReadAccessKeyId.message(),
        "internal error: failed to read access key ID from secret store"
    );
    assert_eq!(
        AwsError::ReadSecretAccessKey.message(),
        "internal error: failed to read secret access key from secret store"
    );
    assert_eq!(
        AwsError::ReadSessionToken.message(),
        "internal error: failed to read session token from secret store"
    );
    assert_eq!(
        AwsError::NoConnectionRole.message(),
        "internal error: no AWS connection role configured"
    );
    assert_eq!(
        AwsError::NoExternalIdPrefix.message(),
        "internal error: no AWS external ID prefix configured"
    );
}

#[test]
fn requests_carry_the_external_id_to_the_customer() {
    let chain = role(Some("custom"))
        .load_credentials_provider(&context(), GlobalId::User(7), Some(region("eu-west-1")))
        .ok()
        .unwrap();
    let requests = chain.into_requests();
    let jump = format!("{:?}", requests.jump);
    assert!(jump.contains("role_arn: \"arn:aws:iam::123456789000:role/Jump\""));
    assert!(jump.contains("external_id: None"));
    assert!(jump.contains("session_name: Some(\"aws-us-east-1-org-0-u7\")"));
    assert!(jump.contains("region: Some(Region(\"eu-west-1\"))"));
    let customer = format!("{:?}", requests.customer);
    assert!(customer.contains("role_arn: \"arn:aws:iam::000000000000:role/Customer\""));
    assert!(customer.contains("external_id: Some(\"mz_eb5cb59b_u7\")"));
    assert!(customer.contains("session_name: Some(\"custom\")"));
    assert!(customer.contains("region: Some(Region(\"eu-west-1\"))"));
}

#[test]
fn requests_leave_the_region_open() {
    let chain = role(None)
        .load_credentials_provider(&context(), GlobalId::User(7), None)
        .ok()
        .unwrap();
    let requests = chain.into_requests();
    assert!(format!("{:?}", requests.jump).contains("region: None"));
    assert!(format!("{:?}", requests.customer).contains("region: None"));
}

#[test]
fn sdk_is_told_what_is_configured() {
    let provider = || {
        SharedCredentialsProvider::new(Credentials::from_keys("access", "secret", None))
    };
    let loader = config_loader(
        provider(),
        Some(region("eu-west-1")),
        Some("http://localhost:4566".to_string()),
    );
    let text = format!("{:?}", loader);
    assert!(text.contains("access"));
    assert!(text.contains("region: Some(Region(\"eu-west-1\"))"));
    assert!(text.contains("endpoint_url: Some(\"http://localhost:4566\")"));
    let text = format!("{:?}", config_loader(provider(), None, None));
    assert!(text.contains("access"));
    assert!(text.contains("region: None"));
    assert!(text.contains("endpoint_url: None"));
}
