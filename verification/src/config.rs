//! The configuration of the adapter: where the backend is, how to
//! authenticate to it, and which tools and prompts to expose.

use crate::client::ClientAuthView;
use crate::endpoint::parsed_url;
use crate::tools::Tools;
use vstd::prelude::*;
use vstd::string::*;

verus! {

/// What the adapter is started with. A user name needs a password,
/// whatever else is given. At most one way of authenticating is in force:
/// an API key comes before user name and password.
#[derive(Debug)]
pub struct ElasticsearchMcpConfig {
    /// The address of the cluster.
    pub url: Option<String>,
    /// An API key, already encoded.
    pub api_key: Option<String>,
    pub username: Option<String>,
    pub password: Option<String>,
    /// Whether to accept any certificate of the cluster.
    pub ssl_skip_verify: bool,
    pub tools: Tools,
    /// Names of prompts, handed on as they are.
    pub prompts: Vec<String>,
}

/// The address that a configuration has where it gives none.
pub fn default_es_url() -> (r: Option<String>)
    ensures
        r matches Some(url) && url@ == "http://localhost:9200"@,
{
    Some("http://localhost:9200".to_owned())
}

/// A field that is present but empty counts as absent.
pub fn none_if_empty(value: Option<String>) -> (r: Option<String>)
    ensures
        r == match value {
            Some(s) if s@.len() > 0 => Some(s),
            _ => None,
        },
{
    match value {
        Some(s) => if s.as_str().unicode_len() > 0 {
            Some(s)
        } else {
            None
        },
        None => None,
    }
}

/// Why a configuration cannot be started with.
#[derive(Debug, Clone, PartialEq, Eq)]
pub enum ConfigError {
    /// A user name is given, and no password with it.
    MissingPassword,
    /// No address is given.
    UrlNotConfigured,
    /// The address is the empty text.
    UrlEmpty,
    /// The address is no absolute URL; the message is the parser's.
    InvalidUrl(String),
    /// The backend client could not be built; the message says why.
    ClientConstruction(String),
}

/// A configuration error, with its message as text.
pub enum ConfigErrorView {
    MissingPassword,
    UrlNotConfigured,
    UrlEmpty,
    InvalidUrl(Seq<char>),
    ClientConstruction(Seq<char>),
}

impl View for ConfigError {
    type V = ConfigErrorView;

    open spec fn view(&self) -> ConfigErrorView {
        match self {
            ConfigError::MissingPassword => ConfigErrorView::MissingPassword,
            ConfigError::UrlNotConfigured => ConfigErrorView::UrlNotConfigured,
            ConfigError::UrlEmpty => ConfigErrorView::UrlEmpty,
            ConfigError::InvalidUrl(m) => ConfigErrorView::InvalidUrl(m@),
            ConfigError::ClientConstruction(m) => ConfigErrorView::ClientConstruction(m@),
        }
    }
}

impl ConfigError {
    /// What the operator is told.
    pub open spec fn message_text(self) -> Seq<char> {
        match self {
            ConfigError::MissingPassword => "missing password"@,
            ConfigError::UrlNotConfigured =>
                "Elasticsearch URL is not configured and no default is available"@,
            ConfigError::UrlEmpty => "Elasticsearch URL is empty"@,
            ConfigError::InvalidUrl(m) => m@,
            ConfigError::ClientConstruction(m) => m@,
        }
    }

    /// What the operator is told.
    pub fn message(&self) -> (r: String)
        ensures
            r@ == self.message_text(),
    {
        match self {
            ConfigError::MissingPassword => "missing password".to_owned(),
            ConfigError::UrlNotConfigured =>
                "Elasticsearch URL is not configured and no default is available".to_owned(),
            ConfigError::UrlEmpty => "Elasticsearch URL is empty".to_owned(),
            ConfigError::InvalidUrl(m) => m.clone(),
            ConfigError::ClientConstruction(m) => m.clone(),
        }
    }
}

impl ElasticsearchMcpConfig {
    /// The credentials that the configuration asks for: the API key where
    /// there is one, else user name and password, else none.
    pub open spec fn auth(&self) -> Option<ClientAuthView> {
        match (self.api_key, self.username, self.password) {
            (Some(key), _, _) => Some(ClientAuthView::EncodedApiKey(key@)),
            (None, Some(user), Some(password)) => Some(ClientAuthView::Basic(user@, password@)),
            _ => None,
        }
    }

    /// What is wrong with the configuration, if anything; of several
    /// things, the first in this order: a user name without a password, no
    /// address, an empty address, an address that is no URL.
    pub open spec fn error(&self) -> Option<ConfigErrorView> {
        if self.username is Some && self.password is None {
            Some(ConfigErrorView::MissingPassword)
        } else {
            match self.url {
                None => Some(ConfigErrorView::UrlNotConfigured),
                Some(url) => if url@.len() == 0 {
                    Some(ConfigErrorView::UrlEmpty)
                } else {
                    match parsed_url(url@) {
                        Ok(_) => None,
                        Err(m) => Some(ConfigErrorView::InvalidUrl(m)),
                    }
                },
            }
        }
    }
}

} // verus!
