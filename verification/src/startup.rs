//! Startup: from a configuration to the provider of the default client.
//!
//! In container mode an address on `localhost` is moved to a host name
//! under which the container host answers. Whether such a name resolves
//! only a probe can tell, so startup is a sequence of steps: each either
//! asks for the probe of one name, or ends.

use crate::client::{adapter_user_agent, auth_view, ClientAuth, ClientAuthView, ClientView, EsClient};
use crate::config::{ConfigError, ConfigErrorView, ElasticsearchMcpConfig};
use crate::endpoint::{moved_to, parsed_url, Endpoint, EndpointView};
use crate::provider::EsClientProvider;
use crate::rewrite::{
    alias_name, alias_text, first_step, next_probe, next_step, rewrite_localhost, RewriteStep,
    ALIAS_COUNT,
};
use vstd::prelude::*;

verus! {

/// A startup that waits for the probe of one host name.
pub struct PendingStartup {
    auth: Option<ClientAuth>,
    endpoint: Endpoint,
    ssl_skip_verify: bool,
    alias: usize,
}

/// A pending startup, as what it holds.
pub struct PendingView {
    pub auth: Option<ClientAuthView>,
    pub endpoint: EndpointView,
    pub ssl_skip_verify: bool,
    pub alias: usize,
}

impl View for PendingStartup {
    type V = PendingView;

    closed spec fn view(&self) -> PendingView {
        PendingView {
            auth: auth_view(self.auth),
            endpoint: self.endpoint@,
            ssl_skip_verify: self.ssl_skip_verify,
            alias: self.alias,
        }
    }
}

impl PendingStartup {
    #[verifier::type_invariant]
    spec fn alias_in_list(&self) -> bool {
        self.alias < ALIAS_COUNT
    }

    /// The host name to probe.
    pub fn alias(&self) -> (r: &'static str)
        ensures
            self@.alias < ALIAS_COUNT,
            r@ == alias_text(self@.alias as int),
    {
        proof {
            use_type_invariant(self);
        }
        match alias_name(self.alias) {
            Some(name) => name,
            None => vstd::pervasive::unreached(),
        }
    }
}

/// A step of startup.
pub enum Startup {
    /// The host name of the pending startup is to be probed, and the
    /// outcome handed to `after_probe`.
    Probe(PendingStartup),
    /// The default client is built.
    Ready(EsClientProvider),
    /// Startup has failed.
    Failed(ConfigError),
}

/// The server over the backend.
#[derive(Clone)]
pub struct ElasticsearchMcp {}

impl ElasticsearchMcp {
    /// `r` ends a startup for the address `endpoint`: with the provider of
    /// a client built from exactly these settings, whose backend client
    /// holds them, or, where the backend client could not be built, with
    /// that failure.
    pub open spec fn finishes(
        auth: Option<ClientAuthView>,
        endpoint: EndpointView,
        ssl_skip_verify: bool,
        r: Startup,
    ) -> bool {
        match r {
            Startup::Ready(provider) => provider.default_client()@ == (ClientView {
                endpoint: endpoint.text,
                auth,
                skip_cert_validation: ssl_skip_verify,
                user_agent: adapter_user_agent(),
            }) && provider.default_client().is_faithful() && provider.skips_cert_validation()
                == ssl_skip_verify,
            Startup::Failed(ConfigError::ClientConstruction(_)) => true,
            _ => false,
        }
    }

    /// Ends a startup once the attempt to build the default client is over.
    pub fn finish(built: Result<EsClient, String>, ssl_skip_verify: bool) -> (r: Startup)
        ensures
            match built {
                Ok(client) => r matches Startup::Ready(provider) && provider.default_client()
                    == client && provider.skips_cert_validation() == ssl_skip_verify,
                Err(message) => r matches Startup::Failed(e) && e@
                    == ConfigErrorView::ClientConstruction(message@),
            },
    {
        match built {
            Ok(client) => Startup::Ready(EsClientProvider::new(client, ssl_skip_verify)),
            Err(message) => Startup::Failed(ConfigError::ClientConstruction(message)),
        }
    }

    /// Starts up with `config`. A configuration with something wrong in it
    /// fails with that error. Otherwise, in container mode and for an
    /// address on `localhost`, the first host name is to be probed; in
    /// every other case the default client is built for the address as
    /// configured.
    pub fn new_with_config(config: ElasticsearchMcpConfig, container_mode: bool) -> (r: Startup)
        ensures
            match config.error() {
                Some(error) => r matches Startup::Failed(e) && e@ == error,
                None => {
                    let endpoint = parsed_url(config.url->0@)->Ok_0;
                    match first_step(container_mode, endpoint.host) {
                        RewriteStep::Probe(alias) => r matches Startup::Probe(pending) && pending@
                            == (PendingView {
                            auth: config.auth(),
                            endpoint,
                            ssl_skip_verify: config.ssl_skip_verify,
                            alias,
                        }),
                        _ => Self::finishes(
                            config.auth(),
                            endpoint,
                            config.ssl_skip_verify,
                            r,
                        ),
                    }
                },
            },
    {
        let ssl_skip_verify = config.ssl_skip_verify;
        let auth = match config.username {
            Some(user) => match config.password {
                Some(password) => match config.api_key {
                    Some(key) => Some(ClientAuth::EncodedApiKey(key)),
                    None => Some(ClientAuth::Basic(user, password)),
                },
                None => return Startup::Failed(ConfigError::MissingPassword),
            },
            None => match config.api_key {
                Some(key) => Some(ClientAuth::EncodedApiKey(key)),
                None => None,
            },
        };
        let url_str = match config.url {
            Some(url) => url,
            None => return Startup::Failed(ConfigError::UrlNotConfigured),
        };
        if url_str.as_str().is_empty() {
            return Startup::Failed(ConfigError::UrlEmpty);
        }
        let endpoint = match Endpoint::parse(url_str.as_str()) {
            Ok(e) => e,
            Err(message) => return Startup::Failed(ConfigError::InvalidUrl(message)),
        };
        match rewrite_localhost(container_mode, &endpoint) {
            RewriteStep::Probe(alias) => Startup::Probe(
                PendingStartup { auth, endpoint, ssl_skip_verify, alias },
            ),
            _ => Self::finish(EsClient::build(endpoint, auth, ssl_skip_verify), ssl_skip_verify),
        }
    }

    /// Goes on after the probe of the host name of `pending`: with that
    /// name in place of `localhost` where it resolved, else with the probe
    /// of the next name, and after the last name with the address as
    /// configured. Rewriting never fails: an address whose URL refuses the
    /// host name stays as it is.
    pub fn after_probe(pending: PendingStartup, resolved: bool) -> (r: Startup)
        ensures
            match next_step(pending@.alias, resolved) {
                RewriteStep::Rewrite(alias) => Self::finishes(
                    pending@.auth,
                    moved_to(pending@.endpoint, alias_text(alias as int)),
                    pending@.ssl_skip_verify,
                    r,
                ),
                RewriteStep::Probe(alias) => r matches Startup::Probe(next) && next@
                    == (PendingView { alias, ..pending@ }),
                RewriteStep::Keep => Self::finishes(
                    pending@.auth,
                    pending@.endpoint,
                    pending@.ssl_skip_verify,
                    r,
                ),
            },
    {
        proof {
            use_type_invariant(&pending);
        }
        let PendingStartup { auth, endpoint, ssl_skip_verify, alias } = pending;
        match next_probe(alias, resolved) {
            RewriteStep::Rewrite(taken) => {
                let moved = match alias_name(taken) {
                    Some(name) => endpoint.with_host(name),
                    None => None,
                };
                let rewritten = match moved {
                    Some(e) => e,
                    None => endpoint,
                };
                Self::finish(EsClient::build(rewritten, auth, ssl_skip_verify), ssl_skip_verify)
            },
            RewriteStep::Probe(next) => Startup::Probe(
                PendingStartup { auth, endpoint, ssl_skip_verify, alias: next },
            ),
            RewriteStep::Keep => Self::finish(
                EsClient::build(endpoint, auth, ssl_skip_verify),
                ssl_skip_verify,
            ),
        }
    }
}

} // verus!
