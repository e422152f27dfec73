//! Assuming a customer's IAM role.

use crate::aws::types::{AwsAssumeRole, AwsError, ConnectionContext};
use crate::global_id::GlobalId;
use crate::outside::{json_list, json_object, json_of, json_text, members, region_name, Json};
use aws_types::region::Region;
use serde_json::Value;
use vstd::prelude::*;

verus! {

/// The external ID of the connection `connection_id` in the environment with the
/// given prefix.
pub open spec fn external_id_of(prefix: Seq<char>, connection_id: GlobalId) -> Seq<char> {
    "mz_"@ + prefix + "_"@ + connection_id.name()
}

/// The session name that identifies an environment and a connection.
pub open spec fn default_session_name(
    environment_id: Seq<char>,
    connection_id: GlobalId,
) -> Seq<char> {
    environment_id + "-"@ + connection_id.name()
}

/// Two role sessions, one opened from within the other.
///
/// The credentials of this process open a session in the jump role. That session
/// opens one in the customer's role. Both are opened in the same region.
pub struct AssumeRoleChain {
    /// The role that this process assumes first.
    pub jump_role_arn: String,
    /// The name of the session in the jump role, which the customer does not see.
    pub jump_session_name: String,
    /// The customer's role.
    pub role_arn: String,
    /// The name of the session in the customer's role.
    pub session_name: String,
    /// The external ID that is presented to the customer's role.
    pub external_id: Option<String>,
    /// The region to use; without one, AWS's defaults apply.
    pub region: Option<Region>,
}

/// An `AssumeRoleChain` as plain text.
pub struct AssumeRoleChainView {
    pub jump_role_arn: Seq<char>,
    pub jump_session_name: Seq<char>,
    pub role_arn: Seq<char>,
    pub session_name: Seq<char>,
    pub external_id: Option<Seq<char>>,
    pub region: Option<Seq<char>>,
}

/// The name of an optional region.
pub open spec fn region_view(region: Option<Region>) -> Option<Seq<char>> {
    match region {
        Some(region) => Some(region_name(region)),
        None => None,
    }
}

impl View for AssumeRoleChain {
    type V = AssumeRoleChainView;

    open spec fn view(&self) -> AssumeRoleChainView {
        AssumeRoleChainView {
            jump_role_arn: self.jump_role_arn@,
            jump_session_name: self.jump_session_name@,
            role_arn: self.role_arn@,
            session_name: self.session_name@,
            external_id: self.external_id.deep_view(),
            region: region_view(self.region),
        }
    }
}

/// The statement of a trust policy that lets `principal` assume the role if it
/// presents the external ID.
pub open spec fn trust_statement(principal: Seq<char>, external_id: Seq<char>) -> Json {
    Json::Object(
        map![
            "Effect"@ => Json::Text("Allow"@),
            "Principal"@ => Json::Object(map!["AWS"@ => Json::Text(principal)]),
            "Action"@ => Json::Text("sts:AssumeRole"@),
            "Condition"@ => Json::Object(map![
                "StringEquals"@ => Json::Object(map![
                    "sts:ExternalId"@ => Json::Text(external_id)
                ])
            ])
        ],
    )
}

/// The trust policy with that one statement.
pub open spec fn trust_policy(principal: Seq<char>, external_id: Seq<char>) -> Json {
    Json::Object(
        map![
            "Version"@ => Json::Text("2012-10-17"@),
            "Statement"@ => Json::List(seq![trust_statement(principal, external_id)])
        ],
    )
}

impl AwsAssumeRole {
    /// The external ID to present to this role, or the error for want of a prefix.
    pub open spec fn external_id_spec(
        self,
        context: ConnectionContext,
        connection_id: GlobalId,
    ) -> Result<Seq<char>, AwsError> {
        match context.aws_external_id_prefix {
            Some(prefix) => Ok(external_id_of(prefix@, connection_id)),
            None => Err(AwsError::NoExternalIdPrefix),
        }
    }

    /// The sessions that reach this role with the given external ID, or the error
    /// for want of a jump role.
    pub open spec fn chain(
        self,
        context: ConnectionContext,
        connection_id: GlobalId,
        external_id: Option<Seq<char>>,
        region: Option<Seq<char>>,
    ) -> Result<AssumeRoleChainView, AwsError> {
        let default_name = default_session_name(context.environment_id@, connection_id);
        match context.aws_connection_role_arn {
            Some(jump_role_arn) => Ok(
                AssumeRoleChainView {
                    jump_role_arn: jump_role_arn@,
                    jump_session_name: default_name,
                    role_arn: self.arn@,
                    session_name: match self.session_name {
                        Some(name) => name@,
                        None => default_name,
                    },
                    external_id,
                    region,
                },
            ),
            None => Err(AwsError::NoConnectionRole),
        }
    }

    /// The sessions that reach this role with the external ID of the connection.
    pub open spec fn guarded_chain(
        self,
        context: ConnectionContext,
        connection_id: GlobalId,
        region: Option<Seq<char>>,
    ) -> Result<AssumeRoleChainView, AwsError> {
        match self.external_id_spec(context, connection_id) {
            Ok(external_id) => self.chain(context, connection_id, Some(external_id), region),
            Err(err) => Err(err),
        }
    }

    /// The trust policy that lets this environment assume the role for the
    /// connection, or what the environment lacks for one.
    pub open spec fn trust_policy_spec(
        self,
        context: ConnectionContext,
        connection_id: GlobalId,
    ) -> Result<Json, AwsError> {
        match context.aws_connection_role_arn {
            Some(jump_role_arn) => match self.external_id_spec(context, connection_id) {
                Ok(external_id) => Ok(trust_policy(jump_role_arn@, external_id)),
                Err(err) => Err(err),
            },
            None => Err(AwsError::NoConnectionRole),
        }
    }

    /// Plans the sessions that assume this role with the external ID of the
    /// connection.
    pub fn load_credentials_provider(
        &self,
        context: &ConnectionContext,
        connection_id: GlobalId,
        region: Option<Region>,
    ) -> (chain: Result<AssumeRoleChain, AwsError>)
        ensures
            chain_view(chain) == self.guarded_chain(*context, connection_id, region_view(region)),
    {
        // The plain chain may be used here, as this is the function that provides
        // a safe wrapper by forcing use of the correct external ID.
        match self.external_id(context, connection_id) {
            Ok(external_id) => self.dangerously_load_credentials_provider(
                context,
                connection_id,
                Some(external_id),
                region,
            ),
            Err(err) => Err(err),
        }
    }

    /// DANGEROUS: only for internal use!
    ///
    /// Like `load_credentials_provider`, but accepts an arbitrary external ID.
    /// Without the right external ID a customer's role cannot limit its trust to
    /// one environment and connection.
    pub(crate) fn dangerously_load_credentials_provider(
        &self,
        context: &ConnectionContext,
        connection_id: GlobalId,
        external_id: Option<String>,
        region: Option<Region>,
    ) -> (chain: Result<AssumeRoleChain, AwsError>)
        ensures
            chain_view(chain) == self.chain(
                *context,
                connection_id,
                external_id.deep_view(),
                region_view(region),
            ),
    {
        let jump_role_arn = match &context.aws_connection_role_arn {
            Some(arn) => arn.clone(),
            None => return Err(AwsError::NoConnectionRole),
        };
        // The default session name identifies the environment and the connection.
        // The jump session always has it, so that the logs of the jump role tell
        // who opened the session. The customer's session has the name that the
        // customer chose, if any, as that is the one the customer sees.
        let jump_session_name = context.environment_id.clone().concat("-").concat(
            connection_id.to_text().as_str(),
        );
        let session_name = match &self.session_name {
            Some(name) => name.clone(),
            None => jump_session_name.clone(),
        };
        Ok(
            AssumeRoleChain {
                jump_role_arn,
                jump_session_name,
                role_arn: self.arn.clone(),
                session_name,
                external_id,
                region,
            },
        )
    }

    /// The external ID to present to this role.
    pub fn external_id(&self, context: &ConnectionContext, connection_id: GlobalId) -> (external_id:
        Result<String, AwsError>)
        ensures
            match external_id {
                Ok(external_id) => self.external_id_spec(*context, connection_id) == Ok::<
                    Seq<char>,
                    AwsError,
                >(external_id@),
                Err(err) => self.external_id_spec(*context, connection_id) == Err::<
                    Seq<char>,
                    AwsError,
                >(err),
            },
    {
        match &context.aws_external_id_prefix {
            Some(prefix) => Ok(
                "mz_".to_owned().concat(prefix.as_str()).concat("_").concat(
                    connection_id.to_text().as_str(),
                ),
            ),
            None => Err(AwsError::NoExternalIdPrefix),
        }
    }

    /// A trust policy that a customer may give to this role.
    pub fn example_trust_policy(
        &self,
        context: &ConnectionContext,
        connection_id: GlobalId,
    ) -> (policy: Result<Value, AwsError>)
        ensures
            match policy {
                Ok(policy) => self.trust_policy_spec(*context, connection_id) == Ok::<
                    Json,
                    AwsError,
                >(json_of(policy)),
                Err(err) => self.trust_policy_spec(*context, connection_id) == Err::<
                    Json,
                    AwsError,
                >(err),
            },
    {
        let jump_role_arn = match &context.aws_connection_role_arn {
            Some(arn) => arn.clone(),
            None => return Err(AwsError::NoConnectionRole),
        };
        let external_id = match self.external_id(context, connection_id) {
            Ok(external_id) => external_id,
            Err(err) => return Err(err),
        };
        let statement = trust_statement_value(jump_role_arn, external_id);
        let ghost statement_json = json_of(statement);
        let items = vec![statement];
        assert(items@.map_values(|item: Value| json_of(item)) == seq![statement_json]);
        let statements = json_list(items);
        let version = json_text("2012-10-17".to_owned());
        let entries = vec![
            ("Version".to_owned(), version),
            ("Statement".to_owned(), statements),
        ];
        proof {
            reveal_strlit("Version");
            reveal_strlit("Statement");
            assert("Version"@[0] == 'V' && "Statement"@[0] == 'S');
            let e = entries@;
            reveal_with_fuel(members, 3);
            assert(e.drop_last().drop_last() == Seq::<(String, Value)>::empty());
        }
        Ok(json_object(entries))
    }
}

/// A planned chain as plain text.
pub open spec fn chain_view(chain: Result<AssumeRoleChain, AwsError>) -> Result<
    AssumeRoleChainView,
    AwsError,
> {
    match chain {
        Ok(chain) => Ok(chain@),
        Err(err) => Err(err),
    }
}

/// An object with one member.
fn json_member(name: &str, value: Value) -> (object: Value)
    ensures
        json_of(object) == Json::Object(map![name@ => json_of(value)]),
{
    let entries = vec![(name.to_owned(), value)];
    proof {
        reveal_with_fuel(members, 2);
        assert(entries@.drop_last() == Seq::<(String, Value)>::empty());
    }
    json_object(entries)
}

/// Builds the statement of a trust policy.
fn trust_statement_value(principal: String, external_id: String) -> (statement: Value)
    ensures
        json_of(statement) == trust_statement(principal@, external_id@),
{
    let equals = json_member("sts:ExternalId", json_text(external_id));
    let condition = json_member("StringEquals", equals);
    let principal = json_member("AWS", json_text(principal));
    let effect = json_text("Allow".to_owned());
    let action = json_text("sts:AssumeRole".to_owned());
    let entries = vec![
        ("Effect".to_owned(), effect),
        ("Principal".to_owned(), principal),
        ("Action".to_owned(), action),
        ("Condition".to_owned(), condition),
    ];
    proof {
        reveal_strlit("Effect");
        reveal_strlit("Principal");
        reveal_strlit("Action");
        reveal_strlit("Condition");
        assert("Effect"@[0] == 'E' && "Principal"@[0] == 'P');
        assert("Action"@[0] == 'A' && "Condition"@[0] == 'C');
        let e = entries@;
        reveal_with_fuel(members, 5);
        assert(e.drop_last().drop_last().drop_last().drop_last() == Seq::<
            (String, Value),
        >::empty());
    }
    json_object(entries)
}

} // verus!
