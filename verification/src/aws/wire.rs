//! AWS connections on the wire.

use crate::aws::types::{AwsAssumeRole, AwsAuth, AwsConnection, AwsCredentials};
use crate::global_id::{GlobalId, ProtoGlobalId, ProtoStringOrSecret, StringOrSecret};
use crate::proto::{into_rust_if_some, required, RustType, TryFromProtoError};
use vstd::prelude::*;

verus! {

/// An `AwsConnection` on the wire.
#[derive(Clone, Debug, PartialEq, Eq)]
pub struct ProtoAwsConnection {
    pub auth: Option<ProtoAwsAuth>,
    pub region: Option<String>,
    pub endpoint: Option<String>,
}

/// An `AwsAuth` on the wire.
#[derive(Clone, Debug, PartialEq, Eq)]
pub enum ProtoAwsAuth {
    Credentials(ProtoAwsCredentials),
    AssumeRole(ProtoAwsAssumeRole),
}

/// `AwsCredentials` on the wire.
#[derive(Clone, Debug, PartialEq, Eq)]
pub struct ProtoAwsCredentials {
    pub access_key_id: Option<ProtoStringOrSecret>,
    pub secret_access_key: Option<ProtoGlobalId>,
    pub session_token: Option<ProtoStringOrSecret>,
}

/// An `AwsAssumeRole` on the wire.
#[derive(Clone, Debug, PartialEq, Eq)]
pub struct ProtoAwsAssumeRole {
    pub arn: String,
    pub session_name: Option<String>,
}

fn clone_option(text: &Option<String>) -> (result: Option<String>)
    ensures
        result == *text,
{
    match text {
        Some(text) => Some(text.clone()),
        None => None,
    }
}

impl RustType<ProtoAwsAssumeRole> for AwsAssumeRole {
    open spec fn encoding(&self) -> ProtoAwsAssumeRole {
        ProtoAwsAssumeRole { arn: self.arn, session_name: self.session_name }
    }

    open spec fn decoding(proto: ProtoAwsAssumeRole) -> Result<Self, TryFromProtoError> {
        Ok(AwsAssumeRole { arn: proto.arn, session_name: proto.session_name })
    }

    open spec fn may_decode(proto: ProtoAwsAssumeRole) -> bool {
        true
    }

    fn into_proto(&self) -> (proto: ProtoAwsAssumeRole) {
        ProtoAwsAssumeRole {
            arn: self.arn.clone(),
            session_name: clone_option(&self.session_name),
        }
    }

    fn from_proto(proto: ProtoAwsAssumeRole) -> (value: Result<Self, TryFromProtoError>) {
        Ok(AwsAssumeRole { arn: proto.arn, session_name: proto.session_name })
    }

    proof fn decode_encoding(&self) {
    }

    proof fn encode_decoding(proto: ProtoAwsAssumeRole) {
    }
}

impl RustType<ProtoAwsCredentials> for AwsCredentials {
    open spec fn encoding(&self) -> ProtoAwsCredentials {
        ProtoAwsCredentials {
            access_key_id: Some(self.access_key_id.encoding()),
            secret_access_key: Some(self.secret_access_key.encoding()),
            session_token: self.session_token.encoding(),
        }
    }

    /// The first field that is absent or ill-formed decides the error.
    open spec fn decoding(proto: ProtoAwsCredentials) -> Result<Self, TryFromProtoError> {
        let access_key_id = required::<StringOrSecret, ProtoStringOrSecret>(
            proto.access_key_id,
            "ProtoAwsCredentials::access_key_id",
        );
        let secret_access_key = required::<GlobalId, ProtoGlobalId>(
            proto.secret_access_key,
            "ProtoAwsCredentials::secret_access_key",
        );
        let session_token = Option::<StringOrSecret>::decoding(proto.session_token);
        if access_key_id is Err {
            Err(access_key_id->Err_0)
        } else if secret_access_key is Err {
            Err(secret_access_key->Err_0)
        } else if session_token is Err {
            Err(session_token->Err_0)
        } else {
            Ok(
                AwsCredentials {
                    access_key_id: access_key_id->Ok_0,
                    secret_access_key: secret_access_key->Ok_0,
                    session_token: session_token->Ok_0,
                },
            )
        }
    }

    open spec fn may_decode(proto: ProtoAwsCredentials) -> bool {
        true
    }

    fn into_proto(&self) -> (proto: ProtoAwsCredentials) {
        ProtoAwsCredentials {
            access_key_id: Some(self.access_key_id.into_proto()),
            secret_access_key: Some(self.secret_access_key.into_proto()),
            session_token: self.session_token.into_proto(),
        }
    }

    fn from_proto(proto: ProtoAwsCredentials) -> (value: Result<Self, TryFromProtoError>) {
        let access_key_id: StringOrSecret = match into_rust_if_some(
            proto.access_key_id,
            "ProtoAwsCredentials::access_key_id",
        ) {
            Ok(access_key_id) => access_key_id,
            Err(err) => return Err(err),
        };
        let secret_access_key: GlobalId = match into_rust_if_some(
            proto.secret_access_key,
            "ProtoAwsCredentials::secret_access_key",
        ) {
            Ok(secret_access_key) => secret_access_key,
            Err(err) => return Err(err),
        };
        let session_token = match Option::<StringOrSecret>::from_proto(proto.session_token) {
            Ok(session_token) => session_token,
            Err(err) => return Err(err),
        };
        Ok(AwsCredentials { access_key_id, secret_access_key, session_token })
    }

    proof fn decode_encoding(&self) {
        self.access_key_id.decode_encoding();
        self.secret_access_key.decode_encoding();
        self.session_token.decode_encoding();
    }

    proof fn encode_decoding(proto: ProtoAwsCredentials) {
        StringOrSecret::encode_decoding(proto.access_key_id->0);
        GlobalId::encode_decoding(proto.secret_access_key->0);
        Option::<StringOrSecret>::encode_decoding(proto.session_token);
    }
}

impl RustType<ProtoAwsConnection> for AwsConnection {
    open spec fn encoding(&self) -> ProtoAwsConnection {
        ProtoAwsConnection {
            auth: Some(
                match self.auth {
                    AwsAuth::Credentials(credentials) => ProtoAwsAuth::Credentials(
                        credentials.encoding(),
                    ),
                    AwsAuth::AssumeRole(assume_role) => ProtoAwsAuth::AssumeRole(
                        assume_role.encoding(),
                    ),
                },
            ),
            region: self.region,
            endpoint: self.endpoint,
        }
    }

    open spec fn decoding(proto: ProtoAwsConnection) -> Result<Self, TryFromProtoError> {
        let auth = match proto.auth->0 {
            ProtoAwsAuth::Credentials(credentials) => match AwsCredentials::decoding(credentials) {
                Ok(credentials) => Ok(AwsAuth::Credentials(credentials)),
                Err(err) => Err(err),
            },
            ProtoAwsAuth::AssumeRole(assume_role) => match AwsAssumeRole::decoding(assume_role) {
                Ok(assume_role) => Ok(AwsAuth::AssumeRole(assume_role)),
                Err(err) => Err(err),
            },
        };
        match auth {
            Ok(auth) => Ok(AwsConnection { auth, region: proto.region, endpoint: proto.endpoint }),
            Err(err) => Err(err),
        }
    }

    /// The message of a connection always says how to authenticate.
    open spec fn may_decode(proto: ProtoAwsConnection) -> bool {
        proto.auth is Some
    }

    fn into_proto(&self) -> (proto: ProtoAwsConnection) {
        let auth = match &self.auth {
            AwsAuth::Credentials(credentials) => ProtoAwsAuth::Credentials(
                credentials.into_proto(),
            ),
            AwsAuth::AssumeRole(assume_role) => ProtoAwsAuth::AssumeRole(assume_role.into_proto()),
        };
        ProtoAwsConnection {
            auth: Some(auth),
            region: clone_option(&self.region),
            endpoint: clone_option(&self.endpoint),
        }
    }

    fn from_proto(proto: ProtoAwsConnection) -> (value: Result<Self, TryFromProtoError>) {
        let auth = match proto.auth.unwrap() {
            ProtoAwsAuth::Credentials(credentials) => match AwsCredentials::from_proto(
                credentials,
            ) {
                Ok(credentials) => AwsAuth::Credentials(credentials),
                Err(err) => return Err(err),
            },
            ProtoAwsAuth::AssumeRole(assume_role) => match AwsAssumeRole::from_proto(assume_role) {
                Ok(assume_role) => AwsAuth::AssumeRole(assume_role),
                Err(err) => return Err(err),
            },
        };
        Ok(AwsConnection { auth, region: proto.region, endpoint: proto.endpoint })
    }

    proof fn decode_encoding(&self) {
        match self.auth {
            AwsAuth::Credentials(credentials) => credentials.decode_encoding(),
            AwsAuth::AssumeRole(assume_role) => assume_role.decode_encoding(),
        }
    }

    proof fn encode_decoding(proto: ProtoAwsConnection) {
        match proto.auth->0 {
            ProtoAwsAuth::Credentials(credentials) => AwsCredentials::encode_decoding(credentials),
            ProtoAwsAuth::AssumeRole(assume_role) => AwsAssumeRole::encode_decoding(assume_role),
        }
    }
}

} // verus!
