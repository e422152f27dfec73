//! How clients connect: TLS, Frontegg authentication and cross-origin requests.

use crate::base64url::{decode, no_space, stands_for, stands_for_one};
use crate::environment::args::{ConnectionArgs, ListenAddress};
use crate::environment::error::ConfigError;
use crate::outside::{
    decoding_key_from_rsa_pem, header_bytes, header_value_from_str, is_header_byte,
    rsa_decoding_key,
};
use crate::text::{decimal, decimal_is_digits, decimal_text};
use http::header::HeaderValue;
use jsonwebtoken::DecodingKey;
use std::path::PathBuf;
use uuid::Uuid;
use vstd::pervasive::unreached;
use vstd::prelude::*;
use vstd::string::*;
use vstd::utf8::*;

verus! {

/// How stringently to demand TLS, where it is not disabled.
#[derive(Clone, Copy, Debug, PartialEq, Eq, Structural)]
pub enum TlsMode {
    /// Require that all connections negotiate TLS.
    Require,
}

/// How to serve TLS.
pub struct TlsConfig {
    pub mode: TlsMode,
    pub cert: PathBuf,
    pub key: PathBuf,
}

/// How to authenticate users with Frontegg.
pub struct FronteggConfig {
    /// The URL of the api-token endpoint.
    pub admin_api_token_url: String,
    /// The key that checks tokens.
    pub decoding_key: DecodingKey,
    /// The tenant.
    pub tenant_id: Uuid,
    /// How long before a token expires it is refreshed.
    pub refresh_before_secs: i64,
    /// The name of the admin role.
    pub admin_role: String,
}

/// How clients connect.
pub struct ConnectionSettings {
    pub sql_listen_addr: ListenAddress,
    pub http_listen_addr: ListenAddress,
    pub internal_sql_listen_addr: ListenAddress,
    pub internal_http_listen_addr: ListenAddress,
    pub tls: Option<TlsConfig>,
    pub frontegg: Option<FronteggConfig>,
    pub allowed_origins: Vec<HeaderValue>,
}

/// How long before a token expires it is refreshed.
pub const REFRESH_BEFORE_SECS: i64 = 60;

/// The TLS configuration for a mode, a certificate and a key.
pub open spec fn tls_spec(
    mode: Seq<char>,
    cert: Option<PathBuf>,
    key: Option<PathBuf>,
) -> Result<Option<TlsConfig>, ConfigError> {
    if mode == "disable"@ {
        if cert is Some {
            Err(ConfigError::TlsCertWithoutTls)
        } else if key is Some {
            Err(ConfigError::TlsKeyWithoutTls)
        } else {
            Ok(None)
        }
    } else {
        Ok(Some(TlsConfig { mode: TlsMode::Require, cert: cert->0, key: key->0 }))
    }
}

/// The PEM document that the option for the key stands for: what it is the base64
/// encoding of, or else the option itself.
pub open spec fn jwk_pem(jwk: Seq<char>) -> Seq<u8> {
    let text = encode_utf8(jwk);
    if exists|pem: Seq<u8>| stands_for(text, pem) {
        choose|pem: Seq<u8>| stands_for(text, pem)
    } else {
        text
    }
}

/// The six origins of local clients.
pub open spec fn local_origins(port: u16) -> Seq<Seq<char>> {
    seq![
        "http://localhost:"@ + decimal(port as nat),
        "http://127.0.0.1:"@ + decimal(port as nat),
        "http://[::1]:"@ + decimal(port as nat),
        "https://localhost:"@ + decimal(port as nat),
        "https://127.0.0.1:"@ + decimal(port as nat),
        "https://[::1]:"@ + decimal(port as nat),
    ]
}

/// Whether `origins` are those to allow, given the configured ones and the port of
/// the HTTP server.
pub open spec fn allows(configured: Seq<HeaderValue>, port: u16, origins: Seq<HeaderValue>) -> bool {
    if configured.len() > 0 {
        origins == configured
    } else {
        &&& origins.len() == local_origins(port).len()
        &&& forall|i: int|
            0 <= i < origins.len() ==> header_bytes(#[trigger] origins[i]) == encode_utf8(
                local_origins(port)[i],
            )
    }
}

impl ConnectionArgs {
    /// The Frontegg options are all there or none is.
    pub open spec fn frontegg_complete(self) -> bool {
        &&& self.frontegg_tenant is Some == self.frontegg_api_token_url is Some
        &&& self.frontegg_tenant is Some == self.frontegg_jwk is Some
        &&& self.frontegg_tenant is Some == self.frontegg_admin_role is Some
    }

    /// What the command line parser has to see to: TLS has one of two modes, and
    /// where it is required it has its files. Unless the TLS options are refused,
    /// the Frontegg options are all there or none is.
    pub open spec fn well_formed(self) -> bool {
        &&& self.tls_mode@ == "disable"@ || self.tls_mode@ == "require"@
        &&& self.tls_mode@ != "disable"@ ==> self.tls_cert is Some && self.tls_key is Some
        &&& tls_spec(self.tls_mode@, self.tls_cert, self.tls_key) is Ok ==> self.frontegg_complete()
    }

    /// The Frontegg configuration, if there is to be one, or the error for a key
    /// that cannot be read.
    pub open spec fn frontegg_spec(self) -> Result<Option<FronteggConfig>, ConfigError> {
        if self.frontegg_tenant is None {
            Ok(None)
        } else {
            match rsa_decoding_key(jwk_pem(self.frontegg_jwk->0@)) {
                Ok(decoding_key) => Ok(
                    Some(
                        FronteggConfig {
                            admin_api_token_url: self.frontegg_api_token_url->0,
                            decoding_key,
                            tenant_id: self.frontegg_tenant->0,
                            refresh_before_secs: REFRESH_BEFORE_SECS,
                            admin_role: self.frontegg_admin_role->0,
                        },
                    ),
                ),
                Err(err) => Err(ConfigError::Jwk(err)),
            }
        }
    }

    /// Why clients cannot connect as these options say, if so. TLS is settled
    /// before Frontegg, so that an error there comes first.
    pub open spec fn failure(self) -> Option<ConfigError> {
        match tls_spec(self.tls_mode@, self.tls_cert, self.tls_key) {
            Err(err) => Some(err),
            Ok(_) => match self.frontegg_spec() {
                Err(err) => Some(err),
                Ok(_) => None,
            },
        }
    }

    /// Whether clients connect as these options say.
    pub open spec fn gives(self, settings: ConnectionSettings) -> bool {
        &&& tls_spec(self.tls_mode@, self.tls_cert, self.tls_key) == Ok::<
            Option<TlsConfig>,
            ConfigError,
        >(settings.tls)
        &&& self.frontegg_spec() == Ok::<Option<FronteggConfig>, ConfigError>(settings.frontegg)
        &&& allows(
            self.cors_allowed_origin@,
            self.http_listen_addr.port_spec(),
            settings.allowed_origins@,
        )
        &&& settings.sql_listen_addr == self.sql_listen_addr
        &&& settings.http_listen_addr == self.http_listen_addr
        &&& settings.internal_sql_listen_addr == self.internal_sql_listen_addr
        &&& settings.internal_http_listen_addr == self.internal_http_listen_addr
    }

    /// Checks what the command line parser has to see to.
    pub fn is_well_formed(&self) -> (result: bool)
        ensures
            result == self.well_formed(),
    {
        let disable = self.tls_mode == "disable".to_owned();
        let require = self.tls_mode == "require".to_owned();
        let cert = self.tls_cert.is_some();
        let key = self.tls_key.is_some();
        let refused = disable && (cert || key);
        let tenant = self.frontegg_tenant.is_some();
        let complete = tenant == self.frontegg_api_token_url.is_some() && tenant
            == self.frontegg_jwk.is_some() && tenant == self.frontegg_admin_role.is_some();
        (disable || require) && (disable || cert && key) && (refused || complete)
    }

    /// Configures how clients connect.
    pub fn configure(self) -> (settings: Result<ConnectionSettings, ConfigError>)
        requires
            self.well_formed(),
        ensures
            match settings {
                Ok(settings) => self.failure() is None && self.gives(settings),
                Err(err) => self.failure() == Some(err),
            },
    {
        let tls = match tls_config(&self.tls_mode, self.tls_cert, self.tls_key) {
            Ok(tls) => tls,
            Err(err) => return Err(err),
        };
        let frontegg = match (
            self.frontegg_tenant,
            self.frontegg_api_token_url,
            self.frontegg_jwk,
            self.frontegg_admin_role,
        ) {
            (Some(tenant_id), Some(admin_api_token_url), Some(jwk), Some(admin_role)) => {
                match frontegg_config(
                    tenant_id,
                    admin_api_token_url,
                    admin_role,
                    decoding_key(jwk.as_str()),
                ) {
                    Ok(frontegg) => Some(frontegg),
                    Err(err) => return Err(err),
                }
            },
            _ => None,
        };
        let port: u16 = self.http_listen_addr.port();
        Ok(
            ConnectionSettings {
                sql_listen_addr: self.sql_listen_addr,
                http_listen_addr: self.http_listen_addr,
                internal_sql_listen_addr: self.internal_sql_listen_addr,
                internal_http_listen_addr: self.internal_http_listen_addr,
                tls,
                frontegg,
                allowed_origins: allowed_origins(self.cors_allowed_origin, port),
            },
        )
    }
}

/// Configures TLS.
pub fn tls_config(mode: &String, cert: Option<PathBuf>, key: Option<PathBuf>) -> (tls: Result<
    Option<TlsConfig>,
    ConfigError,
>)
    requires
        mode@ == "disable"@ || mode@ == "require"@,
        mode@ != "disable"@ ==> cert is Some && key is Some,
    ensures
        tls == tls_spec(mode@, cert, key),
{
    if *mode == "disable".to_owned() {
        if cert.is_some() {
            return Err(ConfigError::TlsCertWithoutTls);
        }
        if key.is_some() {
            return Err(ConfigError::TlsKeyWithoutTls);
        }
        return Ok(None);
    }
    match (cert, key) {
        (Some(cert), Some(key)) => Ok(Some(TlsConfig { mode: TlsMode::Require, cert, key })),
        _ => unreached(),
    }
}

/// Reads the key that checks tokens.
pub fn decoding_key(jwk: &str) -> (key: Result<DecodingKey, jsonwebtoken::errors::Error>)
    ensures
        key == rsa_decoding_key(jwk_pem(jwk@)),
{
    let pem = pem_document(jwk);
    decoding_key_from_rsa_pem(pem.as_slice())
}

/// The PEM document that the option for the key stands for.
pub fn pem_document(jwk: &str) -> (pem: Vec<u8>)
    ensures
        pem@ == jwk_pem(jwk@),
{
    match decode(jwk.as_bytes()) {
        Some(pem) => {
            proof {
                let text = encode_utf8(jwk@);
                stands_for_one(text, pem@, jwk_pem(jwk@));
            }
            pem
        },
        None => jwk.as_bytes_vec(),
    }
}

/// Configures Frontegg authentication with a key, if it could be read.
pub fn frontegg_config(
    tenant_id: Uuid,
    admin_api_token_url: String,
    admin_role: String,
    key: Result<DecodingKey, jsonwebtoken::errors::Error>,
) -> (config: Result<FronteggConfig, ConfigError>)
    ensures
        match key {
            Ok(decoding_key) => config == Ok::<FronteggConfig, ConfigError>(
                FronteggConfig {
                    admin_api_token_url,
                    decoding_key,
                    tenant_id,
                    refresh_before_secs: REFRESH_BEFORE_SECS,
                    admin_role,
                },
            ),
            Err(err) => config == Err::<FronteggConfig, ConfigError>(ConfigError::Jwk(err)),
        },
{
    match key {
        Ok(decoding_key) => Ok(
            FronteggConfig {
                admin_api_token_url,
                decoding_key,
                tenant_id,
                refresh_before_secs: REFRESH_BEFORE_SECS,
                admin_role,
            },
        ),
        Err(err) => Err(ConfigError::Jwk(err)),
    }
}

/// The origins from which requests are allowed: the configured ones or, without
/// any, those of local clients.
pub fn allowed_origins(configured: Vec<HeaderValue>, port: u16) -> (origins: Vec<HeaderValue>)
    ensures
        allows(configured@, port, origins@),
{
    if configured.len() > 0 {
        return configured;
    }
    proof {
        reveal_strlit("http://localhost:");
        reveal_strlit("http://127.0.0.1:");
        reveal_strlit("http://[::1]:");
        reveal_strlit("https://localhost:");
        reveal_strlit("https://127.0.0.1:");
        reveal_strlit("https://[::1]:");
    }
    vec![
        origin("http://localhost:", port),
        origin("http://127.0.0.1:", port),
        origin("http://[::1]:", port),
        origin("https://localhost:", port),
        origin("https://127.0.0.1:", port),
        origin("https://[::1]:", port),
    ]
}

/// `true` if `c` is a visible ASCII character.
pub open spec fn is_visible(c: char) -> bool {
    ' ' < c < '\x7f'
}

/// The origin with the given port.
fn origin(prefix: &str, port: u16) -> (origin: HeaderValue)
    requires
        forall|i: int| 0 <= i < prefix@.len() ==> is_visible(#[trigger] prefix@[i]),
    ensures
        header_bytes(origin) == encode_utf8(prefix@ + decimal(port as nat)),
{
    let text = prefix.to_owned().concat(decimal_text(port as u64).as_str());
    proof {
        decimal_is_digits(port as nat);
        let chars = text@;
        assert forall|i: int| 0 <= i < chars.len() implies is_visible(#[trigger] chars[i]) by {
            if i >= prefix@.len() {
                assert(chars[i] == decimal(port as nat)[i - prefix@.len()]);
            }
        }
        is_ascii_chars_encode_utf8(chars);
        assert forall|i: int| 0 <= i < encode_utf8(chars).len() implies is_header_byte(
            #[trigger] encode_utf8(chars)[i],
        ) by {
            assert(is_visible(chars[i]));
        }
    }
    match header_value_from_str(text.as_str()) {
        Ok(value) => value,
        Err(_) => unreached(),
    }
}

/// A key that is base64 encoded is read as what it is the encoding of.
pub proof fn encoded_jwk_is_decoded(jwk: Seq<char>, pem: Seq<u8>)
    requires
        stands_for(encode_utf8(jwk), pem),
    ensures
        jwk_pem(jwk) == pem,
{
    stands_for_one(encode_utf8(jwk), pem, jwk_pem(jwk));
}

/// A key with a space in it, as every PEM document has one, is read as it is.
pub proof fn plain_jwk_is_kept(jwk: Seq<char>)
    requires
        jwk.contains(' '),
    ensures
        jwk_pem(jwk) == encode_utf8(jwk),
{
    space_is_encoded(jwk);
    assert forall|pem: Seq<u8>| !stands_for(encode_utf8(jwk), pem) by {
        if stands_for(encode_utf8(jwk), pem) {
            no_space(encode_utf8(jwk), pem);
        }
    }
}

proof fn space_is_encoded(chars: Seq<char>)
    requires
        chars.contains(' '),
    ensures
        encode_utf8(chars).contains(32),
    decreases chars.len(),
{
    let first = encode_scalar(chars[0] as u32);
    let rest = chars.drop_first();
    if chars[0] == ' ' {
        assert(leading_byte_width_1(32) == 32) by (bit_vector);
        assert(encode_utf8(chars)[0] == 32);
    } else {
        let i = chars.index_of(' ');
        assert(rest[i - 1] == ' ');
        space_is_encoded(rest);
        let j = encode_utf8(rest).index_of(32);
        assert(encode_utf8(chars)[first.len() + j] == 32);
    }
}

} // verus!
