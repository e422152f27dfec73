//! What describes an AWS connection.

use crate::global_id::{GlobalId, StringOrSecret};
use vstd::prelude::*;

verus! {

/// AWS connection configuration.
#[derive(Clone, Debug, PartialEq, Eq, Hash)]
pub struct AwsConnection {
    pub auth: AwsAuth,
    /// The AWS region to use.
    ///
    /// Uses the default region (looking at env vars, config files, etc) if not
    /// provided.
    pub region: Option<String>,
    /// The custom AWS endpoint to use, if any.
    pub endpoint: Option<String>,
}

/// Describes how to authenticate with AWS.
#[derive(Clone, Debug, PartialEq, Eq, Hash)]
pub enum AwsAuth {
    /// Authenticate with an access key.
    Credentials(AwsCredentials),
    /// Authenticate via assuming an IAM role.
    AssumeRole(AwsAssumeRole),
}

/// AWS credentials to access an AWS account using user access keys.
#[derive(Clone, Debug, PartialEq, Eq, Hash)]
pub struct AwsCredentials {
    /// The AWS API Access Key required to connect to the AWS account.
    pub access_key_id: StringOrSecret,
    /// The Secret Access Key required to connect to the AWS account.
    pub secret_access_key: GlobalId,
    /// Optional session token to connect to the AWS account.
    pub session_token: Option<StringOrSecret>,
}

/// Describes an AWS IAM role to assume.
#[derive(Clone, Debug, PartialEq, Eq, Hash)]
pub struct AwsAssumeRole {
    /// The Amazon Resource Name of the role to assume.
    pub arn: String,
    /// The optional session name for the session.
    pub session_name: Option<String>,
}

/// The prefix of the external IDs of an environment.
///
/// External IDs are what a customer's role trusts, so a prefix comes from the
/// operator of the environment and from nowhere else.
#[derive(Clone, Debug, PartialEq, Eq)]
pub struct AwsExternalIdPrefix {
    prefix: String,
}

impl View for AwsExternalIdPrefix {
    type V = Seq<char>;

    closed spec fn view(&self) -> Seq<char> {
        self.prefix@
    }
}

impl AwsExternalIdPrefix {
    /// Takes the prefix that the operator set on the command line or in the
    /// environment.
    pub fn new_from_cli_argument_or_environment_variable(prefix: &str) -> (result: Self)
        ensures
            result@ == prefix@,
    {
        AwsExternalIdPrefix { prefix: prefix.to_owned() }
    }

    /// The text of the prefix.
    pub fn as_str(&self) -> (text: &str)
        ensures
            text@ == self@,
    {
        self.prefix.as_str()
    }
}

/// The environment that a connection is made from.
#[derive(Clone, Debug, PartialEq, Eq)]
pub struct ConnectionContext {
    /// The identifier of the environment.
    pub environment_id: String,
    /// The prefix of the external IDs of the environment.
    pub aws_external_id_prefix: Option<AwsExternalIdPrefix>,
    /// The "jump role" of the environment: the role that customers allow to
    /// assume theirs.
    pub aws_connection_role_arn: Option<String>,
}

/// Why an AWS connection cannot be used.
#[derive(Clone, Copy, Debug, PartialEq, Eq, Structural)]
pub enum AwsError {
    /// The secret that holds the access key ID could not be read.
    ReadAccessKeyId,
    /// The secret that holds the secret access key could not be read.
    ReadSecretAccessKey,
    /// The secret that holds the session token could not be read.
    ReadSessionToken,
    /// The environment has no jump role.
    NoConnectionRole,
    /// The environment has no prefix for external IDs.
    NoExternalIdPrefix,
    /// AWS accepted the connection without an external ID.
    ExternalIdNotRequired,
}

impl AwsError {
    /// The text that describes the error to a user.
    pub open spec fn description(self) -> Seq<char> {
        match self {
            AwsError::ReadAccessKeyId =>
                "internal error: failed to read access key ID from secret store"@,
            AwsError::ReadSecretAccessKey =>
                "internal error: failed to read secret access key from secret store"@,
            AwsError::ReadSessionToken =>
                "internal error: failed to read session token from secret store"@,
            AwsError::NoConnectionRole => "internal error: no AWS connection role configured"@,
            AwsError::NoExternalIdPrefix => "internal error: no AWS external ID prefix configured"@,
            AwsError::ExternalIdNotRequired =>
                "AWS connection role does not require an external ID; this is INSECURE and allows any Materialize customer access to your AWS account"@,
        }
    }

    /// Describes the error to a user.
    pub fn message(&self) -> (text: &'static str)
        ensures
            text@ == self.description(),
    {
        match self {
            AwsError::ReadAccessKeyId =>
                "internal error: failed to read access key ID from secret store",
            AwsError::ReadSecretAccessKey =>
                "internal error: failed to read secret access key from secret store",
            AwsError::ReadSessionToken =>
                "internal error: failed to read session token from secret store",
            AwsError::NoConnectionRole => "internal error: no AWS connection role configured",
            AwsError::NoExternalIdPrefix => "internal error: no AWS external ID prefix configured",
            AwsError::ExternalIdNotRequired =>
                "AWS connection role does not require an external ID; this is INSECURE and allows any Materialize customer access to your AWS account",
        }
    }
}

/// Why an AWS connection is not valid, where `E` is the error that AWS replies with.
#[derive(Debug, PartialEq, Eq)]
pub enum ValidateError<E> {
    /// The connection cannot be used, or is not safe to use.
    Connection(AwsError),
    /// AWS did not tell the caller who it is, but replied with this.
    CallerIdentity(E),
}

} // verus!
