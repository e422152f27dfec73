//! Loading the access keys of an AWS account.
//!
//! The parts of the credentials may be kept in a secret store. Loading goes
//! through them in turn: each step either asks for one secret or is the last.

use crate::aws::types::{AwsCredentials, AwsError};
use crate::global_id::{GlobalId, StringOrSecret};
use crate::outside::{credentials_from_keys, credentials_keys};
use aws_credential_types::Credentials;
use vstd::prelude::*;

verus! {

/// The access key ID, the secret access key and the session token.
pub type Keys = (Seq<char>, Seq<char>, Option<Seq<char>>);

/// Which secret a reply is for, with what has been loaded before it.
pub enum LoadPoint {
    /// The access key ID.
    AccessKeyId,
    /// The secret access key.
    SecretAccessKey { access_key_id: String },
    /// The session token.
    SessionToken { access_key_id: String, secret_access_key: String },
}

/// A `LoadPoint` as plain text.
pub enum LoadPointView {
    AccessKeyId,
    SecretAccessKey { access_key_id: Seq<char> },
    SessionToken { access_key_id: Seq<char>, secret_access_key: Seq<char> },
}

impl View for LoadPoint {
    type V = LoadPointView;

    open spec fn view(&self) -> LoadPointView {
        match self {
            LoadPoint::AccessKeyId => LoadPointView::AccessKeyId,
            LoadPoint::SecretAccessKey { access_key_id } => LoadPointView::SecretAccessKey {
                access_key_id: access_key_id@,
            },
            LoadPoint::SessionToken { access_key_id, secret_access_key } =>
                LoadPointView::SessionToken {
                access_key_id: access_key_id@,
                secret_access_key: secret_access_key@,
            },
        }
    }
}

/// What comes next in loading credentials.
pub enum LoadStep {
    /// Read this secret and go on from this point with the reply.
    ReadSecret(GlobalId, LoadPoint),
    /// The credentials, or why there are none.
    Done(Result<Credentials, AwsError>),
}

/// A `LoadStep` as plain text.
pub enum LoadStepView {
    ReadSecret(GlobalId, LoadPointView),
    Done(Result<Keys, AwsError>),
}

impl View for LoadStep {
    type V = LoadStepView;

    open spec fn view(&self) -> LoadStepView {
        match self {
            LoadStep::ReadSecret(id, point) => LoadStepView::ReadSecret(*id, point@),
            LoadStep::Done(Ok(credentials)) => LoadStepView::Done(
                Ok(credentials_keys(*credentials)),
            ),
            LoadStep::Done(Err(err)) => LoadStepView::Done(Err(*err)),
        }
    }
}

/// What a secret store holds: the string of each secret that can be read.
pub type SecretStore = spec_fn(GlobalId) -> Option<Seq<char>>;

impl StringOrSecret {
    /// The string itself, if it can be had from the store.
    pub open spec fn text_in(self, store: SecretStore) -> Option<Seq<char>> {
        match self {
            StringOrSecret::String(text) => Some(text@),
            StringOrSecret::Secret(id) => store(id),
        }
    }
}

impl AwsCredentials {
    /// The step once the access key ID is known.
    pub open spec fn with_access_key_id(self, access_key_id: Seq<char>) -> LoadStepView {
        LoadStepView::ReadSecret(
            self.secret_access_key,
            LoadPointView::SecretAccessKey { access_key_id },
        )
    }

    /// The step once both keys are known.
    pub open spec fn with_both_keys(
        self,
        access_key_id: Seq<char>,
        secret_access_key: Seq<char>,
    ) -> LoadStepView {
        match self.session_token {
            Some(StringOrSecret::Secret(id)) => LoadStepView::ReadSecret(
                id,
                LoadPointView::SessionToken { access_key_id, secret_access_key },
            ),
            Some(StringOrSecret::String(token)) => LoadStepView::Done(
                Ok((access_key_id, secret_access_key, Some(token@))),
            ),
            None => LoadStepView::Done(Ok((access_key_id, secret_access_key, None))),
        }
    }

    /// The first step.
    pub open spec fn first_step(self) -> LoadStepView {
        match self.access_key_id {
            StringOrSecret::Secret(id) => LoadStepView::ReadSecret(id, LoadPointView::AccessKeyId),
            StringOrSecret::String(key) => self.with_access_key_id(key@),
        }
    }

    /// The step after the store has replied with a string or not at all.
    pub open spec fn next_step(self, point: LoadPointView, reply: Option<Seq<char>>) -> LoadStepView {
        match point {
            LoadPointView::AccessKeyId => match reply {
                Some(key) => self.with_access_key_id(key),
                None => LoadStepView::Done(Err(AwsError::ReadAccessKeyId)),
            },
            LoadPointView::SecretAccessKey { access_key_id } => match reply {
                Some(key) => self.with_both_keys(access_key_id, key),
                None => LoadStepView::Done(Err(AwsError::ReadSecretAccessKey)),
            },
            LoadPointView::SessionToken { access_key_id, secret_access_key } => match reply {
                Some(token) => LoadStepView::Done(
                    Ok((access_key_id, secret_access_key, Some(token))),
                ),
                None => LoadStepView::Done(Err(AwsError::ReadSessionToken)),
            },
        }
    }

    /// The keys that these credentials name, given what the store holds. The first
    /// part that cannot be read decides the error.
    pub open spec fn keys_in(self, store: SecretStore) -> Result<Keys, AwsError> {
        match (self.access_key_id.text_in(store), store(self.secret_access_key)) {
            (None, _) => Err(AwsError::ReadAccessKeyId),
            (_, None) => Err(AwsError::ReadSecretAccessKey),
            (Some(access_key_id), Some(secret_access_key)) => match self.session_token {
                None => Ok((access_key_id, secret_access_key, None)),
                Some(token) => match token.text_in(store) {
                    None => Err(AwsError::ReadSessionToken),
                    Some(token) => Ok((access_key_id, secret_access_key, Some(token))),
                },
            },
        }
    }

    /// Starts to load the configured credentials.
    pub fn load_credentials_provider(&self) -> (step: LoadStep)
        ensures
            step@ == self.first_step(),
    {
        match &self.access_key_id {
            StringOrSecret::Secret(id) => LoadStep::ReadSecret(*id, LoadPoint::AccessKeyId),
            StringOrSecret::String(key) => LoadStep::ReadSecret(
                self.secret_access_key,
                LoadPoint::SecretAccessKey { access_key_id: key.clone() },
            ),
        }
    }

    /// Goes on loading with the reply of the secret store.
    pub fn resume(&self, point: LoadPoint, reply: Option<String>) -> (step: LoadStep)
        ensures
            step@ == self.next_step(point@, reply.deep_view()),
    {
        match point {
            LoadPoint::AccessKeyId => match reply {
                Some(access_key_id) => LoadStep::ReadSecret(
                    self.secret_access_key,
                    LoadPoint::SecretAccessKey { access_key_id },
                ),
                None => LoadStep::Done(Err(AwsError::ReadAccessKeyId)),
            },
            LoadPoint::SecretAccessKey { access_key_id } => match reply {
                Some(secret_access_key) => match &self.session_token {
                    Some(StringOrSecret::Secret(id)) => LoadStep::ReadSecret(
                        *id,
                        LoadPoint::SessionToken { access_key_id, secret_access_key },
                    ),
                    Some(StringOrSecret::String(token)) => LoadStep::Done(
                        Ok(
                            credentials_from_keys(
                                access_key_id,
                                secret_access_key,
                                Some(token.clone()),
                            ),
                        ),
                    ),
                    None => LoadStep::Done(
                        Ok(credentials_from_keys(access_key_id, secret_access_key, None)),
                    ),
                },
                None => LoadStep::Done(Err(AwsError::ReadSecretAccessKey)),
            },
            LoadPoint::SessionToken { access_key_id, secret_access_key } => match reply {
                Some(token) => LoadStep::Done(
                    Ok(credentials_from_keys(access_key_id, secret_access_key, Some(token))),
                ),
                None => LoadStep::Done(Err(AwsError::ReadSessionToken)),
            },
        }
    }

    /// The outcome of loading from `step` on, where each secret that is asked for
    /// is looked up in `store`.
    pub open spec fn outcome(self, step: LoadStepView, store: SecretStore) -> Result<Keys, AwsError>
        decreases steps_left(step),
    {
        match step {
            LoadStepView::Done(result) => result,
            LoadStepView::ReadSecret(id, point) => self.outcome(
                self.next_step(point, store(id)),
                store,
            ),
        }
    }

    /// The secrets that are asked for from `step` on, in order.
    pub open spec fn secrets_read(self, step: LoadStepView, store: SecretStore) -> Seq<GlobalId>
        decreases steps_left(step),
    {
        match step {
            LoadStepView::Done(_) => Seq::empty(),
            LoadStepView::ReadSecret(id, point) => seq![id] + self.secrets_read(
                self.next_step(point, store(id)),
                store,
            ),
        }
    }

    /// The secrets that these credentials name, in the order of the parts.
    pub open spec fn secrets(self) -> Seq<GlobalId> {
        (match self.access_key_id {
            StringOrSecret::Secret(id) => seq![id],
            StringOrSecret::String(_) => Seq::empty(),
        }) + seq![self.secret_access_key] + (match self.session_token {
            Some(StringOrSecret::Secret(id)) => seq![id],
            _ => Seq::empty(),
        })
    }
}

/// How many secrets may still be asked for.
pub open spec fn steps_left(step: LoadStepView) -> nat {
    match step {
        LoadStepView::ReadSecret(_, LoadPointView::AccessKeyId) => 3,
        LoadStepView::ReadSecret(_, LoadPointView::SecretAccessKey { .. }) => 2,
        LoadStepView::ReadSecret(_, LoadPointView::SessionToken { .. }) => 1,
        LoadStepView::Done(_) => 0,
    }
}

/// Loading step by step gives the keys that the credentials name in the store, or
/// the error for the first part that cannot be read.
pub proof fn loading_gives_the_keys(credentials: AwsCredentials, store: SecretStore)
    ensures
        credentials.outcome(credentials.first_step(), store) == credentials.keys_in(store),
{
    reveal_with_fuel(AwsCredentials::outcome, 4);
}

/// Loading asks only for secrets that the credentials name, each at most as often
/// as it is named and in the order of the parts. It asks for all of them if it
/// succeeds, and for none after one that cannot be read.
pub proof fn loading_reads_secrets_in_order(credentials: AwsCredentials, store: SecretStore)
    ensures
        ({
            let read = credentials.secrets_read(credentials.first_step(), store);
            &&& read.is_prefix_of(credentials.secrets())
            &&& credentials.keys_in(store) is Ok <==> (read == credentials.secrets() && forall|
                i: int,
            |
                0 <= i < read.len() ==> store(#[trigger] read[i]) is Some)
            &&& forall|i: int| 0 <= i < read.len() - 1 ==> store(#[trigger] read[i]) is Some
        }),
{
    reveal_with_fuel(AwsCredentials::secrets_read, 4);
    let read = credentials.secrets_read(credentials.first_step(), store);
    assert(read.is_prefix_of(credentials.secrets()));
    if forall|i: int| 0 <= i < read.len() ==> store(#[trigger] read[i]) is Some {
        assert(0 < read.len() ==> store(read[0]) is Some);
        assert(1 < read.len() ==> store(read[1]) is Some);
        assert(2 < read.len() ==> store(read[2]) is Some);
    }
    if credentials.keys_in(store) is Ok {
        assert(read == credentials.secrets());
    }
}

} // verus!
