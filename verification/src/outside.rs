//! The calls that leave this crate.
//!
//! Nothing here is proved: each item says what the called function is relied upon
//! to do.

use aws_config::sts::{AssumeRoleProvider, AssumeRoleProviderBuilder};
use aws_config::ConfigLoader;
use aws_credential_types::provider::SharedCredentialsProvider;
use aws_credential_types::Credentials;
use aws_types::region::Region;
use http::header::{HeaderValue, InvalidHeaderValue};
use jsonwebtoken::DecodingKey;
use serde_json::Value;
use std::path::PathBuf;
use url::Url;
use uuid::Uuid;
use vstd::prelude::*;
use vstd::string::*;

verus! {

/// A JSON document, as far as documents are built here.
pub enum Json {
    Text(Seq<char>),
    List(Seq<Json>),
    Object(Map<Seq<char>, Json>),
}

/// `serde_json::Value`, a JSON document.
#[verifier::external_type_specification]
#[verifier::external_body]
pub struct ExValue(Value);

/// The document that a `serde_json::Value` holds.
pub uninterp spec fn json_of(value: Value) -> Json;

/// The members of an object, by name.
pub open spec fn members(entries: Seq<(String, Value)>) -> Map<Seq<char>, Json>
    decreases entries.len(),
{
    if entries.len() == 0 {
        Map::empty()
    } else {
        members(entries.drop_last()).insert(entries.last().0@, json_of(entries.last().1))
    }
}

/// Calls the constructor `serde_json::Value::String`: the value holds the text.
#[verifier::external_body]
pub(crate) fn json_text(text: String) -> (value: Value)
    ensures
        json_of(value) == Json::Text(text@),
{
    Value::String(text)
}

/// Calls the constructor `serde_json::Value::Array`: the value holds the list of
/// what the items hold.
#[verifier::external_body]
pub(crate) fn json_list(items: Vec<Value>) -> (value: Value)
    ensures
        json_of(value) == Json::List(items@.map_values(|item: Value| json_of(item))),
{
    Value::Array(items)
}

/// Collects the entries into a `serde_json::Map` and calls the constructor
/// `serde_json::Value::Object`: where no name occurs twice, the value holds
/// exactly these members.
#[verifier::external_body]
pub(crate) fn json_object(entries: Vec<(String, Value)>) -> (value: Value)
    requires
        forall|i: int, j: int|
            0 <= i < j < entries@.len() ==> (#[trigger] entries@[i]).0@ != (
            #[trigger] entries@[j]).0@,
    ensures
        json_of(value) == Json::Object(members(entries@)),
{
    Value::Object(entries.into_iter().collect())
}

/// `aws_types::region::Region`, the name of an AWS region.
#[verifier::external_type_specification]
#[verifier::external_body]
pub struct ExRegion(Region);

/// The name that a `Region` holds.
pub uninterp spec fn region_name(region: Region) -> Seq<char>;

/// Calls `Region::new`, which keeps the name as it is.
#[verifier::external_body]
pub(crate) fn region_new(name: String) -> (region: Region)
    ensures
        region_name(region) == name@,
{
    Region::new(name)
}

/// Calls `clone` on a `Region`, which copies the name.
#[verifier::external_body]
pub(crate) fn region_clone(region: &Region) -> (result: Region)
    ensures
        region_name(result) == region_name(*region),
{
    region.clone()
}

/// `aws_credential_types::Credentials`, the keys to an AWS account.
#[verifier::external_type_specification]
#[verifier::external_body]
pub struct ExCredentials(Credentials);

/// What `Credentials` hold: the access key ID, the secret access key and the
/// session token, if there is one.
pub uninterp spec fn credentials_keys(credentials: Credentials) -> (
    Seq<char>,
    Seq<char>,
    Option<Seq<char>>,
);

/// Calls `Credentials::from_keys`, which keeps the three parts as they are. It
/// also marks the credentials as static, without an expiry, of which nothing is
/// said here.
#[verifier::external_body]
pub(crate) fn credentials_from_keys(
    access_key_id: String,
    secret_access_key: String,
    session_token: Option<String>,
) -> (credentials: Credentials)
    ensures
        credentials_keys(credentials) == (
            access_key_id@,
            secret_access_key@,
            session_token.deep_view(),
        ),
{
    Credentials::from_keys(access_key_id, secret_access_key, session_token)
}

/// `aws_config::sts::AssumeRoleProviderBuilder`, the request for a session in a role
/// while it is put together.
#[verifier::external_type_specification]
#[verifier::external_body]
pub struct ExAssumeRoleProviderBuilder(AssumeRoleProviderBuilder);

/// The request for a session in a role, as far as requests are put together here.
pub struct RoleRequest {
    pub role_arn: Seq<char>,
    pub session_name: Option<Seq<char>>,
    pub external_id: Option<Seq<char>>,
    pub region: Option<Seq<char>>,
}

/// The request that an `AssumeRoleProviderBuilder` holds.
pub uninterp spec fn role_request(builder: AssumeRoleProviderBuilder) -> RoleRequest;

/// Calls `AssumeRoleProvider::builder`: the request is for the role, and nothing else
/// is set.
#[verifier::external_body]
pub(crate) fn role_builder(role_arn: String) -> (builder: AssumeRoleProviderBuilder)
    ensures
        role_request(builder) == (RoleRequest {
            role_arn: role_arn@,
            session_name: None,
            external_id: None,
            region: None,
        }),
{
    AssumeRoleProvider::builder(role_arn)
}

/// Calls `AssumeRoleProviderBuilder::session_name`, which sets that part alone.
#[verifier::external_body]
pub(crate) fn role_session_name(builder: AssumeRoleProviderBuilder, name: String) -> (result:
    AssumeRoleProviderBuilder)
    ensures
        role_request(result) == (RoleRequest {
            session_name: Some(name@),
            ..role_request(builder)
        }),
{
    builder.session_name(name)
}

/// Calls `AssumeRoleProviderBuilder::external_id`, which sets that part alone.
#[verifier::external_body]
pub(crate) fn role_external_id(builder: AssumeRoleProviderBuilder, id: String) -> (result:
    AssumeRoleProviderBuilder)
    ensures
        role_request(result) == (RoleRequest { external_id: Some(id@), ..role_request(builder) }),
{
    builder.external_id(id)
}

/// Calls `AssumeRoleProviderBuilder::region`, which sets that part alone.
#[verifier::external_body]
pub(crate) fn role_region(builder: AssumeRoleProviderBuilder, region: Region) -> (result:
    AssumeRoleProviderBuilder)
    ensures
        role_request(result) == (RoleRequest {
            region: Some(region_name(region)),
            ..role_request(builder)
        }),
{
    builder.region(region)
}

/// `aws_credential_types::provider::SharedCredentialsProvider`, what provides
/// credentials when they are needed.
#[verifier::external_type_specification]
#[verifier::external_body]
pub struct ExSharedCredentialsProvider(SharedCredentialsProvider);

/// `aws_config::ConfigLoader`, the configuration of the AWS SDK while it is put
/// together.
#[verifier::external_type_specification]
#[verifier::external_body]
pub struct ExConfigLoader(ConfigLoader);

/// What is set in a configuration of the AWS SDK, as far as it is set here.
pub struct ConfigOverrides {
    pub credentials: Option<SharedCredentialsProvider>,
    pub region: Option<Seq<char>>,
    pub endpoint: Option<Seq<char>>,
}

/// What a `ConfigLoader` was told to use in place of what it would find.
pub uninterp spec fn config_overrides(loader: ConfigLoader) -> ConfigOverrides;

/// Calls `aws_config::from_env`: nothing is set. The surroundings are looked at only
/// when the configuration is loaded.
#[verifier::external_body]
pub(crate) fn config_from_env() -> (loader: ConfigLoader)
    ensures
        config_overrides(loader) == (ConfigOverrides {
            credentials: None,
            region: None,
            endpoint: None,
        }),
{
    aws_config::from_env()
}

/// Calls `ConfigLoader::credentials_provider`, which sets that part alone: credentials
/// then come from the given provider.
#[verifier::external_body]
pub(crate) fn config_credentials_provider(
    loader: ConfigLoader,
    provider: SharedCredentialsProvider,
) -> (result: ConfigLoader)
    ensures
        config_overrides(result) == (ConfigOverrides {
            credentials: Some(provider),
            ..config_overrides(loader)
        }),
{
    loader.credentials_provider(provider)
}

/// Calls `ConfigLoader::region` with a `Region`, which sets that part alone.
#[verifier::external_body]
pub(crate) fn config_region(loader: ConfigLoader, region: Region) -> (result: ConfigLoader)
    ensures
        config_overrides(result) == (ConfigOverrides {
            region: Some(region_name(region)),
            ..config_overrides(loader)
        }),
{
    loader.region(region)
}

/// Calls `ConfigLoader::endpoint_url`, which sets that part alone.
#[verifier::external_body]
pub(crate) fn config_endpoint_url(loader: ConfigLoader, endpoint: String) -> (result: ConfigLoader)
    ensures
        config_overrides(result) == (ConfigOverrides {
            endpoint: Some(endpoint@),
            ..config_overrides(loader)
        }),
{
    loader.endpoint_url(endpoint)
}

/// `std::path::PathBuf`, a path in the file system.
#[verifier::external_type_specification]
#[verifier::external_body]
pub struct ExPathBuf(PathBuf);

/// `url::Url`, a URL that has been parsed.
#[verifier::external_type_specification]
#[verifier::external_body]
pub struct ExUrl(Url);

/// The text that a `Url` is shown as.
pub uninterp spec fn url_text(url: Url) -> Seq<char>;

/// Calls `to_string` on a `Url`, whose `Display` writes the text of the URL and
/// nothing else.
#[verifier::external_body]
pub(crate) fn url_to_string(url: &Url) -> (text: String)
    ensures
        text@ == url_text(*url),
{
    url.to_string()
}

/// `uuid::Uuid`, a unique identifier.
#[verifier::external_type_specification]
#[verifier::external_body]
pub struct ExUuid(Uuid);

/// `http::header::HeaderValue`, the bytes of a header in HTTP.
#[verifier::external_type_specification]
#[verifier::external_body]
pub struct ExHeaderValue(HeaderValue);

/// `http::header::InvalidHeaderValue`, the error for bytes that no header may hold.
#[verifier::external_type_specification]
#[verifier::external_body]
pub struct ExInvalidHeaderValue(InvalidHeaderValue);

/// The bytes that a `HeaderValue` holds.
pub uninterp spec fn header_bytes(value: HeaderValue) -> Seq<u8>;

/// `true` if the value of a header may hold the byte.
pub open spec fn is_header_byte(byte: u8) -> bool {
    byte >= 32 && byte != 127 || byte == 9
}

/// Calls `HeaderValue::from_str`: it succeeds exactly if a header may hold each
/// byte of the text, and then the value holds these bytes.
#[verifier::external_body]
pub(crate) fn header_value_from_str(text: &str) -> (value: Result<HeaderValue, InvalidHeaderValue>)
    ensures
        value is Ok <==> forall|i: int|
            0 <= i < text.spec_bytes().len() ==> is_header_byte(#[trigger] text.spec_bytes()[i]),
        value matches Ok(value) ==> header_bytes(value) == text.spec_bytes(),
{
    HeaderValue::from_str(text)
}

/// `jsonwebtoken::DecodingKey`, a key that checks tokens.
#[verifier::external_type_specification]
#[verifier::external_body]
pub struct ExDecodingKey(DecodingKey);

/// `jsonwebtoken::errors::Error`, the error for a key that cannot be read.
#[verifier::external_type_specification]
#[verifier::external_body]
pub struct ExJwtError(jsonwebtoken::errors::Error);

/// The key that `DecodingKey::from_rsa_pem` reads from a PEM document, or its error.
pub uninterp spec fn rsa_decoding_key(pem: Seq<u8>) -> Result<
    DecodingKey,
    jsonwebtoken::errors::Error,
>;

/// Calls `DecodingKey::from_rsa_pem`, whose result depends on the document alone.
#[verifier::external_body]
pub(crate) fn decoding_key_from_rsa_pem(pem: &[u8]) -> (key: Result<
    DecodingKey,
    jsonwebtoken::errors::Error,
>)
    ensures
        key == rsa_decoding_key(pem@),
{
    DecodingKey::from_rsa_pem(pem)
}

/// `shell_words::ParseError`, the error for a command line with an open quote.
#[verifier::external_type_specification]
#[verifier::external_body]
pub struct ExParseError(shell_words::ParseError);

/// The words into which `shell_words::split` splits a command line, or its error.
pub uninterp spec fn shell_split(line: Seq<char>) -> Result<
    Seq<Seq<char>>,
    shell_words::ParseError,
>;

/// Calls `shell_words::split`, whose result depends on the command line alone.
#[verifier::external_body]
pub(crate) fn split_words(line: &str) -> (words: Result<Vec<String>, shell_words::ParseError>)
    ensures
        match words {
            Ok(words) => shell_split(line@) == Ok::<Seq<Seq<char>>, shell_words::ParseError>(
                words.deep_view(),
            ),
            Err(err) => shell_split(line@) == Err::<Seq<Seq<char>>, shell_words::ParseError>(err),
        },
{
    shell_words::split(line)
}

/// Calls `num_cpus::get`, the number of CPUs that this process may use. The number
/// is the machine's, and nothing is said of it.
#[verifier::external_body]
pub(crate) fn logical_cpus() -> (count: usize) {
    num_cpus::get()
}

/// Calls `num_cpus::get_physical`, the number of physical cores. The number is the
/// machine's, and nothing is said of it.
#[verifier::external_body]
pub(crate) fn physical_cpus() -> (count: usize) {
    num_cpus::get_physical()
}

} // verus!
