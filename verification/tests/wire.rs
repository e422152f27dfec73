use environmentd::aws::types::{AwsAssumeRole, AwsAuth, AwsConnection, AwsCredentials};
use environmentd::aws::wire::{ProtoAwsAuth, ProtoAwsConnection, ProtoAwsCredentials};
use environmentd::global_id::{
    GlobalId, ProtoGlobalId, ProtoGlobalIdKind, ProtoStringOrSecret, ProtoStringOrSecretKind,
    StringOrSecret,
};
use environmentd::proto::{RustType, TryFromProtoError};

fn credentials() -> AwsCredentials {
    AwsCredentials {
        access_key_id: StringOrSecret::String("access".to_string()),
        secret_access_key: GlobalId::User(2),
        session_token: Some(StringOrSecret::Secret(GlobalId::System(3))),
    }
}

fn connection(auth: AwsAuth) -> AwsConnection {
    AwsConnection {
        auth,
        region: Some("us-east-1".to_string()),
        endpoint: None,
    }
}

#[test]
fn connection_with_keys_round_trips() {
    let connection = connection(AwsAuth::Credentials(credentials()));
    let proto: ProtoAwsConnection = connection.into_proto();
    assert_eq!(AwsConnection::from_proto(proto), Ok(connection));
}

#[test]
fn connection_with_role_round_trips() {
    for session_name in [None, Some("session".to_string())] {
        let connection = connection(AwsAuth::AssumeRole(AwsAssumeRole {
            arn: "arn".to_string(),
            session_name,
        }));
        let proto: ProtoAwsConnection = connection.into_proto();
        assert_eq!(proto.region, Some("us-east-1".to_string()));
        assert_eq!(proto.endpoint, None);
        assert_eq!(AwsConnection::from_proto(proto), Ok(connection));
    }
}

#[test]
fn credentials_message_is_exact() {
    let proto: ProtoAwsCredentials = credentials().into_proto();
    assert_eq!(
        proto,
        ProtoAwsCredentials {
            access_key_id: Some(ProtoStringOrSecret {
                kind: Some(ProtoStringOrSecretKind::String("access".to_string())),
            }),
            secret_access_key: Some(ProtoGlobalId {
                kind: Some(ProtoGlobalIdKind::User(2)),
            }),
            session_token: Some(ProtoStringOrSecret {
                kind: Some(ProtoStringOrSecretKind::Secret(ProtoGlobalId {
                    kind: Some(ProtoGlobalIdKind::System(3)),
                })),
            }),
        }
    );
}

#[test]
fn absent_fields_are_named() {
    let full: ProtoAwsCredentials = credentials().into_proto();
    let mut proto = full.clone();
    proto.secret_access_key = None;
    assert_eq!(
        AwsCredentials::from_proto(proto.clone()),
        Err(TryFromProtoError::MissingField(
            "ProtoAwsCredentials::secret_access_key"
        ))
    );
    proto.access_key_id = None;
    assert_eq!(
        AwsCredentials::from_proto(proto),
        Err(TryFromProtoError::MissingField(
            "ProtoAwsCredentials::access_key_id"
        ))
    );
    let mut proto = full;
    proto.session_token = Some(ProtoStringOrSecret { kind: None });
    let connection = ProtoAwsConnection {
        auth: Some(ProtoAwsAuth::Credentials(proto)),
        region: None,
        endpoint: None,
    };
    assert_eq!(
        AwsConnection::from_proto(connection),
        Err(TryFromProtoError::MissingField("ProtoStringOrSecret::kind"))
    );
    assert_eq!(
        GlobalId::from_proto(ProtoGlobalId { kind: None }),
        Err(TryFromProtoError::MissingField("ProtoGlobalId::kind"))
    );
}

#[test]
fn absent_token_stays_absent() {
    let mut proto: ProtoAwsCredentials = credentials().into_proto();
    proto.session_token = None;
    assert_eq!(
        AwsCredentials::from_proto(proto).unwrap().session_token,
        None
    );
}

#[test]
fn identifiers_round_trip_and_render() {
    let ids = [
        (GlobalId::System(0), "s0"),
        (GlobalId::User(10), "u10"),
        (GlobalId::Transient(u64::MAX), "t18446744073709551615"),
        (GlobalId::Explain, "Explained Query"),
    ];
    for (id, text) in ids {
        assert_eq!(id.to_text(), text);
        let proto: ProtoGlobalId = id.into_proto();
        assert_eq!(GlobalId::from_proto(proto), Ok(id));
    }
}
