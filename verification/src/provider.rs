//! Per-request client resolution: the default client, or a fresh one that
//! reflects the endpoint and authorization a caller supplied.

use crate::client::{
    adapter_user_agent, authorization_header_credentials, client_settings, connection_url,
    ClientAuth, ClientAuthView, ClientView, EsClient,
};
use crate::endpoint::{parsed_url, Endpoint, EndpointView};
use crate::headers::{header, header_text};
use crate::text::{has_prefix, skip_chars, starts_with};
use vstd::prelude::*;
use vstd::string::*;

verus! {

/// The authorization value to use for `value`: some callers put `Bearer `
/// in front of an API key or of basic credentials, and that word is dropped.
pub open spec fn fixed_authorization(value: Seq<char>) -> Seq<char> {
    if has_prefix(value, "Bearer ApiKey "@) || has_prefix(value, "Bearer Basic "@) {
        value.subrange(7, value.len() as int)
    } else {
        value
    }
}

/// Drops a leading `Bearer ` from an API key or basic authorization value.
pub fn fix_authorization(value: &str) -> (r: String)
    ensures
        r@ == fixed_authorization(value@),
{
    proof {
        reveal_strlit("Bearer ApiKey ");
        reveal_strlit("Bearer Basic ");
    }
    if starts_with(value, "Bearer ApiKey ") || starts_with(value, "Bearer Basic ") {
        skip_chars(value, 7)
    } else {
        value.to_owned()
    }
}

/// A bearer-prefixed API key or basic value loses exactly the word `Bearer `
/// and its space; every other value stays as it is.
pub proof fn lemma_fixed_authorization(rest: Seq<char>, other: Seq<char>)
    requires
        !has_prefix(other, "Bearer ApiKey "@),
        !has_prefix(other, "Bearer Basic "@),
    ensures
        fixed_authorization("Bearer ApiKey "@ + rest) == "ApiKey "@ + rest,
        fixed_authorization("Bearer Basic "@ + rest) == "Basic "@ + rest,
        fixed_authorization(other) == other,
{
    reveal_strlit("Bearer ApiKey ");
    reveal_strlit("Bearer Basic ");
    reveal_strlit("ApiKey ");
    reveal_strlit("Basic ");
    let key = "Bearer ApiKey "@ + rest;
    assert(key.subrange(0, 14) =~= "Bearer ApiKey "@);
    assert(key.subrange(7, key.len() as int) =~= "ApiKey "@ + rest);
    let basic = "Bearer Basic "@ + rest;
    assert(basic.subrange(0, 13) =~= "Bearer Basic "@);
    assert(basic.subrange(7, basic.len() as int) =~= "Basic "@ + rest);
}

/// Why no client could be built for an override address.
#[derive(Debug, Clone, PartialEq, Eq)]
pub enum ClientError {
    /// The address is no absolute URL; the message says why.
    InvalidUrl(String),
    /// The transport could not be built; the message says why.
    Transport(String),
}

/// The client for one call: the shared default, or one made for the call.
pub enum EffectiveClient<'a> {
    Shared(&'a EsClient),
    Owned(EsClient),
}

impl<'a> EffectiveClient<'a> {
    /// The client to use, whichever case applies.
    pub open spec fn spec_client(&self) -> &EsClient {
        match self {
            EffectiveClient::Shared(c) => c,
            EffectiveClient::Owned(c) => c,
        }
    }

    /// The client to use, whichever case applies.
    #[verifier::when_used_as_spec(spec_client)]
    pub fn client(&self) -> (r: &EsClient)
        ensures
            r == self.spec_client(),
    {
        match self {
            EffectiveClient::Shared(c) => c,
            EffectiveClient::Owned(c) => c,
        }
    }
}

/// What a call gets: the client to use, and, where the call came with an
/// override address that was not used, why not.
pub struct Resolution<'a> {
    pub client: EffectiveClient<'a>,
    pub rejected: Option<ClientError>,
}

/// The authorization header value as credentials, where there is one.
pub open spec fn header_auth(auth: Option<Seq<char>>) -> Option<ClientAuthView> {
    match auth {
        Some(a) => Some(ClientAuthView::AuthorizationHeader(a)),
        None => None,
    }
}

/// A text that may be absent, as its characters.
pub open spec fn option_text(value: Option<&str>) -> Option<Seq<char>> {
    match value {
        Some(s) => Some(s@),
        None => None,
    }
}

/// The authorization value to use for the one that came in, where one did.
pub open spec fn fixed_option(auth: Option<Seq<char>>) -> Option<Seq<char>> {
    match auth {
        Some(a) => Some(fixed_authorization(a)),
        None => None,
    }
}

/// An override address is there, and it is an absolute URL.
pub open spec fn is_url(url: Option<Seq<char>>) -> bool {
    url matches Some(u) && parsed_url(u) is Ok
}

/// The override address that the headers of a call carry, if any.
pub open spec fn override_url(headers: Option<&http::HeaderMap<http::HeaderValue>>) -> Option<
    Seq<char>,
> {
    match headers {
        Some(map) => header_text(*map, "x-elasticsearch-url"@),
        None => None,
    }
}

/// The authorization value that the headers of a call carry, if any.
pub open spec fn override_auth(headers: Option<&http::HeaderMap<http::HeaderValue>>) -> Option<
    Seq<char>,
> {
    match headers {
        Some(map) => header_text(*map, "authorization"@),
        None => None,
    }
}

/// Holds the default client, and the trust setting that clients made for a
/// call inherit.
pub struct EsClientProvider {
    client: EsClient,
    ssl_skip_verify: bool,
}

impl EsClientProvider {
    /// The default client.
    pub closed spec fn default_client(&self) -> EsClient {
        self.client
    }

    /// Whether clients made for a call skip certificate validation.
    pub closed spec fn skips_cert_validation(&self) -> bool {
        self.ssl_skip_verify
    }

    /// A provider over `client` as the default.
    pub fn new(client: EsClient, ssl_skip_verify: bool) -> (r: Self)
        ensures
            r.default_client() == client,
            r.skips_cert_validation() == ssl_skip_verify,
    {
        EsClientProvider { client, ssl_skip_verify }
    }

    /// The default client.
    pub fn client(&self) -> (r: &EsClient)
        ensures
            *r == self.default_client(),
            r.is_faithful(),
    {
        let _ = self.client.inner();
        &self.client
    }

    /// Whether clients made for a call skip certificate validation.
    pub fn ssl_skip_verify(&self) -> (r: bool)
        ensures
            r == self.skips_cert_validation(),
    {
        self.ssl_skip_verify
    }

    /// What a client built for the override address `url` records, with the
    /// authorization value `auth` that it is created with.
    pub open spec fn override_view(&self, url: Seq<char>, auth: Option<Seq<char>>) -> ClientView {
        ClientView {
            endpoint: parsed_url(url)->Ok_0.text,
            auth: header_auth(auth),
            skip_cert_validation: self.skips_cert_validation(),
            user_agent: adapter_user_agent(),
        }
    }

    /// The result is the default client, or, with an authorization value, a
    /// client that differs from the default in its credentials alone.
    pub open spec fn is_fallback(&self, auth: Option<Seq<char>>, r: EffectiveClient) -> bool {
        match auth {
            Some(_) => r matches EffectiveClient::Owned(c) && c@ == (ClientView {
                auth: header_auth(auth),
                ..self.default_client()@
            }),
            None => r == EffectiveClient::Shared(&self.default_client()),
        }
    }

    /// The result is a client made for the override address `url`.
    pub open spec fn is_override(&self, url: Seq<char>, auth: Option<Seq<char>>, r: EffectiveClient) -> bool {
        &&& parsed_url(url) is Ok
        &&& r matches EffectiveClient::Owned(c) && c@ == self.override_view(url, auth)
    }

    /// What is reported of the override address `url`: nothing where none
    /// came or a client was made for it, the parser's message where it is
    /// no URL, and a transport error only where it is one.
    pub open spec fn reports(url: Option<Seq<char>>, rejected: Option<ClientError>) -> bool {
        match rejected {
            None => url is None || is_url(url),
            Some(ClientError::InvalidUrl(m)) => url matches Some(u) && parsed_url(u) == Err::<
                EndpointView,
                Seq<char>,
            >(m@),
            Some(ClientError::Transport(_)) => is_url(url),
        }
    }

    /// `r` is what a call gets that came with the override address `url`
    /// and the authorization value `auth`. Without either it is the
    /// default client itself. With an address that is a URL, and unless the
    /// transport for it could not be built, it is a client made for that
    /// address, with the authorization value and with no other
    /// credentials. In every other case it is the fallback, and an address
    /// that was not used is reported with the reason.
    pub open spec fn resolves(
        &self,
        url: Option<Seq<char>>,
        auth: Option<Seq<char>>,
        r: Resolution,
    ) -> bool {
        &&& url is None && auth is None ==> r.client == EffectiveClient::Shared(
            &self.default_client(),
        )
        &&& Self::reports(url, r.rejected)
        &&& if url is Some && r.rejected is None {
            self.is_override(url->0, fixed_option(auth), r.client)
        } else {
            self.is_fallback(fixed_option(auth), r.client)
        }
        &&& r.client.client().is_faithful()
    }

    /// A call that came with an override address that is a URL, and for
    /// which the transport could be built, gets a client of its own: the
    /// node of its backend client is that of the override address, and its
    /// credentials are the authorization value of the call, fixed up, or
    /// none where the call brought none, whatever the default client holds.
    pub proof fn lemma_override_used(
        &self,
        url: Seq<char>,
        auth: Option<Seq<char>>,
        r: Resolution,
    )
        requires
            self.resolves(Some(url), auth, r),
            r.rejected is None,
        ensures
            parsed_url(url) is Ok,
            r.client is Owned,
            r.client.client()@.endpoint == parsed_url(url)->Ok_0.text,
            client_settings(r.client.client().backend()).node == connection_url(
                parsed_url(url)->Ok_0.text,
            ),
            client_settings(r.client.client().backend()).credentials == match auth {
                Some(a) => Some(authorization_header_credentials(fixed_authorization(a))),
                None => None,
            },
            client_settings(r.client.client().backend()).accepts_any_certificate
                == self.skips_cert_validation(),
    {
    }

    /// A call that came with an override address that is no URL gets the
    /// fallback, and the parser's message beside it: with an authorization
    /// value a client that differs from the default in its credentials
    /// alone, and without one the default client itself.
    pub proof fn lemma_invalid_override_falls_back(
        &self,
        url: Seq<char>,
        auth: Option<Seq<char>>,
        r: Resolution,
    )
        requires
            self.resolves(Some(url), auth, r),
            parsed_url(url) is Err,
        ensures
            r.rejected matches Some(ClientError::InvalidUrl(m)) && parsed_url(url)->Err_0 == m@,
            auth is None ==> r.client == EffectiveClient::Shared(&self.default_client()),
            auth matches Some(a) ==> r.client is Owned && r.client.client()@ == (ClientView {
                auth: Some(ClientAuthView::AuthorizationHeader(fixed_authorization(a))),
                ..self.default_client()@
            }),
    {
    }

    /// The client for a call whose transport metadata holds `headers`: the
    /// override address is read from `X-Elasticsearch-URL`, the
    /// authorization value from `Authorization`. No failure reaches the
    /// caller: an address that cannot be used is reported beside the
    /// client that the call gets instead.
    pub fn get<'a>(&'a self, headers: Option<&http::HeaderMap<http::HeaderValue>>) -> (r:
        Resolution<'a>)
        ensures
            self.resolves(override_url(headers), override_auth(headers), r),
    {
        proof {
            reveal_strlit("x-elasticsearch-url");
            reveal_strlit("authorization");
        }
        let (custom_url, auth) = match headers {
            Some(map) => (header(map, "x-elasticsearch-url"), header(map, "authorization")),
            None => (None, None),
        };
        let url_ref = match &custom_url {
            Some(s) => Some(s.as_str()),
            None => None,
        };
        let auth_ref = match &auth {
            Some(s) => Some(s.as_str()),
            None => None,
        };
        self.resolve(url_ref, auth_ref)
    }

    /// The client for a call that came with the override address
    /// `custom_url` and the authorization value `auth`, each as the caller
    /// sent it.
    pub fn resolve<'a>(&'a self, custom_url: Option<&str>, auth: Option<&str>) -> (r: Resolution<
        'a,
    >)
        ensures
            self.resolves(option_text(custom_url), option_text(auth), r),
    {
        if custom_url.is_none() && auth.is_none() {
            return Resolution { client: self.select(None, None), rejected: None };
        }
        let fixed = match auth {
            Some(a) => Some(fix_authorization(a)),
            None => None,
        };
        let fixed_ref = match &fixed {
            Some(s) => Some(s.as_str()),
            None => None,
        };
        let (built, rejected) = match custom_url {
            Some(url_str) => match self.build_client_with_url(url_str, fixed_ref) {
                Ok(client) => (Some(client), None),
                Err(error) => (None, Some(error)),
            },
            None => (None, None),
        };
        Resolution { client: self.select(built, fixed_ref), rejected }
    }

    /// Builds a client for the address `url_str`, with `auth` as its
    /// authorization header and the trust setting of the provider.
    pub fn build_client_with_url(&self, url_str: &str, auth: Option<&str>) -> (r: Result<
        EsClient,
        ClientError,
    >)
        ensures
            match r {
                Ok(client) => parsed_url(url_str@) is Ok && client@ == self.override_view(
                    url_str@,
                    option_text(auth),
                ) && client.is_faithful(),
                Err(ClientError::InvalidUrl(m)) => parsed_url(url_str@) == Err::<
                    EndpointView,
                    Seq<char>,
                >(m@),
                Err(ClientError::Transport(_)) => parsed_url(url_str@) is Ok,
            },
    {
        let endpoint = match Endpoint::parse(url_str) {
            Ok(e) => e,
            Err(m) => return Err(ClientError::InvalidUrl(m)),
        };
        let credentials = match auth {
            Some(a) => Some(ClientAuth::AuthorizationHeader(a.to_owned())),
            None => None,
        };
        match EsClient::build(endpoint, credentials, self.ssl_skip_verify) {
            Ok(client) => Ok(client),
            Err(message) => Err(ClientError::Transport(message)),
        }
    }

    /// Picks the client for a call once the attempt at an override address
    /// is over: the client built for it, else one with the authorization
    /// value `auth` on the default transport, else the default client.
    pub fn select<'a>(&'a self, built: Option<EsClient>, auth: Option<&str>) -> (r: EffectiveClient<
        'a,
    >)
        ensures
            match built {
                Some(client) => r == EffectiveClient::Owned(client),
                None => self.is_fallback(option_text(auth), r),
            },
            r.client().is_faithful(),
    {
        match built {
            Some(client) => {
                let _ = client.inner();
                EffectiveClient::Owned(client)
            },
            None => match auth {
                Some(a) => EffectiveClient::Owned(
                    self.client.with_auth(ClientAuth::AuthorizationHeader(a.to_owned())),
                ),
                None => {
                    let _ = self.client.inner();
                    EffectiveClient::Shared(&self.client)
                },
            },
        }
    }
}

} // verus!
