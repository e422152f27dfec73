//! Why the options of the command line cannot be followed.

use vstd::prelude::*;

verus! {

/// Why the options of the command line cannot be followed.
pub enum ConfigError {
    /// There is a certificate, but TLS is disabled.
    TlsCertWithoutTls,
    /// There is a private key, but TLS is disabled.
    TlsKeyWithoutTls,
    /// The key that checks tokens cannot be read.
    Jwk(jsonwebtoken::errors::Error),
    /// The command wrapper cannot be split into words.
    CommandWrapper(shell_words::ParseError),
    /// The default size of storage clusters is not among the sizes.
    UnknownDefaultStorageClusterSize,
}

impl ConfigError {
    /// The text that describes the error to a user, where the error does not come
    /// with a description of its own.
    pub open spec fn description(self) -> Option<Seq<char>> {
        match self {
            ConfigError::TlsCertWithoutTls => Some(
                "cannot specify --tls-mode=disable and --tls-cert simultaneously"@,
            ),
            ConfigError::TlsKeyWithoutTls => Some(
                "cannot specify --tls-mode=disable and --tls-key simultaneously"@,
            ),
            ConfigError::Jwk(_) => None,
            ConfigError::CommandWrapper(_) => None,
            ConfigError::UnknownDefaultStorageClusterSize => Some(
                "default storage cluster size is unknown"@,
            ),
        }
    }

    /// Describes the error to a user, unless it comes with a description of its
    /// own.
    pub fn message(&self) -> (text: Option<&'static str>)
        ensures
            match text {
                Some(text) => self.description() == Some(text@),
                None => self.description() is None,
            },
    {
        match self {
            ConfigError::TlsCertWithoutTls => Some(
                "cannot specify --tls-mode=disable and --tls-cert simultaneously",
            ),
            ConfigError::TlsKeyWithoutTls => Some(
                "cannot specify --tls-mode=disable and --tls-key simultaneously",
            ),
            ConfigError::Jwk(_) => None,
            ConfigError::CommandWrapper(_) => None,
            ConfigError::UnknownDefaultStorageClusterSize => Some(
                "default storage cluster size is unknown",
            ),
        }
    }
}

} // verus!
