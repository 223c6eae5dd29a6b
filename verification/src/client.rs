//! Backend clients: what a client was built from, and the calls that build one.

use crate::endpoint::{url_text, Endpoint};
use crate::headers::header_value_bytes;
use vstd::prelude::*;
use vstd::string::*;

verus! {

/// The client of the backend crate, carried as it is.
#[verifier::external_type_specification]
#[verifier::external_body]
pub struct ExElasticsearch(elasticsearch::Elasticsearch);

/// The transport of the backend crate, carried as it is.
#[verifier::external_type_specification]
#[verifier::external_body]
pub struct ExTransport(elasticsearch::http::transport::Transport);

/// The transport builder of the backend crate, carried as it is.
#[verifier::external_type_specification]
#[verifier::external_body]
pub struct ExTransportBuilder(elasticsearch::http::transport::TransportBuilder);

/// The error of the backend crate for a transport that cannot be built.
#[verifier::external_type_specification]
#[verifier::external_body]
pub struct ExBuildError(elasticsearch::http::transport::BuildError);

/// The credentials of the backend crate, carried as they are.
#[verifier::external_type_specification]
#[verifier::external_body]
pub struct ExCredentials(elasticsearch::auth::Credentials);

/// How a client authenticates to the backend.
#[derive(Debug, Clone, PartialEq, Eq)]
pub enum ClientAuth {
    /// An API key, already encoded.
    EncodedApiKey(String),
    /// A user name and a password.
    Basic(String, String),
    /// The value for the authorization header, taken as it is.
    AuthorizationHeader(String),
}

/// Credentials, as the texts they hold.
pub enum ClientAuthView {
    EncodedApiKey(Seq<char>),
    Basic(Seq<char>, Seq<char>),
    AuthorizationHeader(Seq<char>),
}

impl View for ClientAuth {
    type V = ClientAuthView;

    open spec fn view(&self) -> ClientAuthView {
        match self {
            ClientAuth::EncodedApiKey(key) => ClientAuthView::EncodedApiKey(key@),
            ClientAuth::Basic(user, password) => ClientAuthView::Basic(user@, password@),
            ClientAuth::AuthorizationHeader(value) => ClientAuthView::AuthorizationHeader(value@),
        }
    }
}

/// The credentials that `Credentials::EncodedApiKey` of the backend crate
/// makes of an API key.
pub uninterp spec fn encoded_api_key_credentials(key: Seq<char>) -> elasticsearch::auth::Credentials;

/// The credentials that `Credentials::Basic` of the backend crate makes of
/// a user name and a password.
pub uninterp spec fn basic_credentials(
    user: Seq<char>,
    password: Seq<char>,
) -> elasticsearch::auth::Credentials;

/// The credentials that `Credentials::AuthorizationHeader` of the backend
/// crate makes of the value of the header.
pub uninterp spec fn authorization_header_credentials(
    value: Seq<char>,
) -> elasticsearch::auth::Credentials;

/// The credentials of the backend crate that stand for `auth`: those of the
/// same kind, made of the same texts in the same places.
pub open spec fn credentials_for(auth: ClientAuthView) -> elasticsearch::auth::Credentials {
    match auth {
        ClientAuthView::EncodedApiKey(key) => encoded_api_key_credentials(key),
        ClientAuthView::Basic(user, password) => basic_credentials(user, password),
        ClientAuthView::AuthorizationHeader(value) => authorization_header_credentials(value),
    }
}

/// `Credentials::EncodedApiKey` of the backend crate: an API key, already
/// encoded. The variant holds the text and nothing else, so the value is a
/// function of the text; the value itself is opaque.
#[verifier::external_body]
fn encoded_api_key(key: String) -> (r: elasticsearch::auth::Credentials)
    ensures
        r == encoded_api_key_credentials(key@),
{
    elasticsearch::auth::Credentials::EncodedApiKey(key)
}

/// `Credentials::Basic` of the backend crate: a user name and a password.
/// The variant holds the two texts and nothing else, so the value is a
/// function of them; the value itself is opaque.
#[verifier::external_body]
fn basic(user: String, password: String) -> (r: elasticsearch::auth::Credentials)
    ensures
        r == basic_credentials(user@, password@),
{
    elasticsearch::auth::Credentials::Basic(user, password)
}

/// `Credentials::AuthorizationHeader` of the backend crate: the value of
/// the authorization header. The variant holds the text and nothing else,
/// so the value is a function of the text; the value itself is opaque.
#[verifier::external_body]
fn authorization_header(value: String) -> (r: elasticsearch::auth::Credentials)
    ensures
        r == authorization_header_credentials(value@),
{
    elasticsearch::auth::Credentials::AuthorizationHeader(value)
}

/// The credentials of the backend crate that stand for `auth`.
fn outside_credentials(auth: &ClientAuth) -> (r: elasticsearch::auth::Credentials)
    ensures
        r == credentials_for(auth@),
{
    match auth {
        ClientAuth::EncodedApiKey(key) => encoded_api_key(key.clone()),
        ClientAuth::Basic(user, password) => basic(user.clone(), password.clone()),
        ClientAuth::AuthorizationHeader(value) => authorization_header(value.clone()),
    }
}

/// What a builder, a transport or a client of the backend crate holds of
/// the settings that the adapter makes.
pub struct BackendSettings {
    /// The URL of the single node, as its connection keeps it.
    pub node: Seq<char>,
    /// The credentials; of a transport and of a client, those it was
    /// created with.
    pub credentials: Option<elasticsearch::auth::Credentials>,
    /// Whether any certificate of the node is accepted.
    pub accepts_any_certificate: bool,
    /// The bytes under `User-Agent` among the default headers, if any.
    pub default_user_agent: Option<Seq<u8>>,
}

/// The URL that the connection to a node keeps for the URL with the text
/// `url`: the same URL, with a slash at the end of its path where it had
/// none.
pub uninterp spec fn connection_url(url: Seq<char>) -> Seq<char>;

/// What a transport builder holds.
pub uninterp spec fn builder_settings(
    builder: elasticsearch::http::transport::TransportBuilder,
) -> BackendSettings;

/// What a transport holds; for the credentials, what it was created with.
pub uninterp spec fn transport_settings(
    transport: elasticsearch::http::transport::Transport,
) -> BackendSettings;

/// What the transport of a client holds.
pub uninterp spec fn client_settings(client: elasticsearch::Elasticsearch) -> BackendSettings;

/// `TransportBuilder::new` over `SingleNodeConnectionPool::new`: a builder
/// for a transport to the single node at `url`. The pool keeps the URL as
/// `Connection::new` makes it; the builder starts without credentials, with
/// certificate validation as it is by default, and without headers.
#[verifier::external_body]
fn builder_for(url: elasticsearch::http::Url) -> (r:
    elasticsearch::http::transport::TransportBuilder)
    ensures
        builder_settings(r) == (BackendSettings {
            node: connection_url(url_text(url)),
            credentials: None,
            accepts_any_certificate: false,
            default_user_agent: None,
        }),
{
    elasticsearch::http::transport::TransportBuilder::new(
        elasticsearch::http::transport::SingleNodeConnectionPool::new(url),
    )
}

/// `TransportBuilder::auth` sets the credentials of the builder, and
/// nothing else.
pub assume_specification[ elasticsearch::http::transport::TransportBuilder::auth ](
    builder: elasticsearch::http::transport::TransportBuilder,
    credentials: elasticsearch::auth::Credentials,
) -> (r: elasticsearch::http::transport::TransportBuilder)
    ensures
        builder_settings(r) == (BackendSettings {
            credentials: Some(credentials),
            ..builder_settings(builder)
        }),
;

/// `TransportBuilder::build` gives the transport or says why there is none.
/// Which of the two is up to the HTTP client underneath. A transport that
/// it gives holds what the builder held: the pool, the credentials, the
/// builder's headers as the default headers of its HTTP client, and the
/// setting for certificates.
pub assume_specification[ elasticsearch::http::transport::TransportBuilder::build ](
    builder: elasticsearch::http::transport::TransportBuilder,
) -> (r: Result<
    elasticsearch::http::transport::Transport,
    elasticsearch::http::transport::BuildError,
>)
    ensures
        r matches Ok(transport) ==> transport_settings(transport) == builder_settings(builder),
;

/// `Elasticsearch::new` wraps a transport into a client.
pub assume_specification[ elasticsearch::Elasticsearch::new ](
    transport: elasticsearch::http::transport::Transport,
) -> (r: elasticsearch::Elasticsearch)
    ensures
        client_settings(r) == transport_settings(transport),
;

/// `Elasticsearch::transport` hands out the transport of a client.
pub assume_specification[ elasticsearch::Elasticsearch::transport ](
    client: &elasticsearch::Elasticsearch,
) -> (r: &elasticsearch::http::transport::Transport)
    ensures
        transport_settings(*r) == client_settings(*client),
;

/// `Transport::clone_with_auth` gives a transport on the same pool and the
/// same HTTP client, created with the credentials handed over.
pub assume_specification[ elasticsearch::http::transport::Transport::clone_with_auth ](
    transport: &elasticsearch::http::transport::Transport,
    credentials: Option<elasticsearch::auth::Credentials>,
) -> (r: elasticsearch::http::transport::Transport)
    ensures
        transport_settings(r) == (BackendSettings {
            credentials,
            ..transport_settings(*transport)
        }),
;

/// `TransportBuilder::cert_validation` with `CertificateValidation::None`:
/// the transport will accept any certificate. Nothing else of the builder
/// changes.
#[verifier::external_body]
fn without_cert_validation(builder: elasticsearch::http::transport::TransportBuilder) -> (r:
    elasticsearch::http::transport::TransportBuilder)
    ensures
        builder_settings(r) == (BackendSettings {
            accepts_any_certificate: true,
            ..builder_settings(builder)
        }),
{
    builder.cert_validation(elasticsearch::cert::CertificateValidation::None)
}

/// `TransportBuilder::header` with the name `User-Agent`: the headers of
/// the builder, which become the default headers of the HTTP client, hold
/// `value` under that name. Nothing else of the builder changes.
#[verifier::external_body]
fn with_user_agent(
    builder: elasticsearch::http::transport::TransportBuilder,
    value: http::HeaderValue,
) -> (r: elasticsearch::http::transport::TransportBuilder)
    ensures
        builder_settings(r) == (BackendSettings {
            default_user_agent: Some(header_value_bytes(value)),
            ..builder_settings(builder)
        }),
{
    builder.header(http::header::USER_AGENT, value)
}

/// The message of a `BuildError`, as its `Display` writes it. Nothing is
/// stated of the text.
#[verifier::external_body]
fn build_error_text(error: &elasticsearch::http::transport::BuildError) -> String {
    error.to_string()
}

/// The user agent of the adapter: its name and its version.
pub open spec fn adapter_user_agent() -> Seq<char> {
    "elastic-mcp/0.4.0"@
}

/// The user agent of the adapter: its name and its version.
pub fn user_agent() -> (r: String)
    ensures
        r@ == adapter_user_agent(),
{
    "elastic-mcp/0.4.0".to_owned()
}

/// What a client was built from.
pub struct ClientView {
    pub endpoint: Seq<char>,
    pub auth: Option<ClientAuthView>,
    pub skip_cert_validation: bool,
    pub user_agent: Seq<char>,
}

/// Credentials that may be absent, as the texts they hold.
pub open spec fn auth_view(auth: Option<ClientAuth>) -> Option<ClientAuthView> {
    match auth {
        Some(a) => Some(a@),
        None => None,
    }
}

/// What the backend client of a client with the record `record` holds: the
/// node of its address, the credentials that stand for those of the record,
/// its setting for certificates, and its user agent among the default
/// headers.
pub open spec fn backend_settings(record: ClientView) -> BackendSettings {
    BackendSettings {
        node: connection_url(record.endpoint),
        credentials: match record.auth {
            Some(auth) => Some(credentials_for(auth)),
            None => None,
        },
        accepts_any_certificate: record.skip_cert_validation,
        default_user_agent: Some(vstd::utf8::encode_utf8(record.user_agent)),
    }
}

/// A backend client together with the record of what it was built from.
/// The backend client holds what the record says, and the user agent is
/// that of the adapter.
pub struct EsClient {
    endpoint: String,
    auth: Option<ClientAuth>,
    skip_cert_validation: bool,
    user_agent: String,
    inner: elasticsearch::Elasticsearch,
}

impl View for EsClient {
    type V = ClientView;

    closed spec fn view(&self) -> ClientView {
        ClientView {
            endpoint: self.endpoint@,
            auth: auth_view(self.auth),
            skip_cert_validation: self.skip_cert_validation,
            user_agent: self.user_agent@,
        }
    }
}

impl EsClient {
    #[verifier::type_invariant]
    spec fn record_is_true(&self) -> bool {
        &&& self.user_agent@ == adapter_user_agent()
        &&& client_settings(self.inner) == backend_settings(self@)
    }

    /// The backend client held.
    pub closed spec fn backend(&self) -> elasticsearch::Elasticsearch {
        self.inner
    }

    /// The backend client holds what the record says, and the record has
    /// the user agent of the adapter.
    pub open spec fn is_faithful(&self) -> bool {
        &&& self@.user_agent == adapter_user_agent()
        &&& client_settings(self.backend()) == backend_settings(self@)
    }

    /// The user agent among the default headers of the client: always that
    /// of the adapter.
    pub fn user_agent(&self) -> (r: &String)
        ensures
            r@ == adapter_user_agent(),
            self.is_faithful(),
    {
        proof {
            use_type_invariant(self);
        }
        &self.user_agent
    }

    /// The backend client itself, to issue calls with.
    pub fn inner(&self) -> (r: &elasticsearch::Elasticsearch)
        ensures
            *r == self.backend(),
            self.is_faithful(),
    {
        proof {
            use_type_invariant(self);
        }
        &self.inner
    }

    /// The address that the client was built for.
    pub fn endpoint(&self) -> (r: &String)
        ensures
            r@ == self@.endpoint,
    {
        &self.endpoint
    }

    /// The credentials that the client was created with, if any.
    pub fn auth(&self) -> (r: &Option<ClientAuth>)
        ensures
            auth_view(*r) == self@.auth,
    {
        &self.auth
    }

    /// Whether the client accepts any certificate.
    pub fn skip_cert_validation(&self) -> (r: bool)
        ensures
            r == self@.skip_cert_validation,
    {
        self.skip_cert_validation
    }

    /// A client on the transport of this one, created with other
    /// credentials: the node, the setting for certificates and the default
    /// headers stay.
    pub fn with_auth(&self, auth: ClientAuth) -> (r: EsClient)
        ensures
            r@ == (ClientView { auth: Some(auth@), ..self@ }),
            r.is_faithful(),
    {
        proof {
            use_type_invariant(self);
        }
        let transport = self.inner.transport().clone_with_auth(Some(outside_credentials(&auth)));
        EsClient {
            endpoint: self.endpoint.clone(),
            auth: Some(auth),
            skip_cert_validation: self.skip_cert_validation,
            user_agent: self.user_agent.clone(),
            inner: elasticsearch::Elasticsearch::new(transport),
        }
    }

    /// The builder that a client for `endpoint` is built with: it holds the
    /// node of the address, the credentials that stand for `auth`, the
    /// setting for certificates, and the user agent of the adapter among
    /// its headers. With it come the text of the address and the user
    /// agent.
    fn transport_builder(endpoint: Endpoint, auth: &Option<ClientAuth>, skip_cert_validation: bool)
        -> (r: (elasticsearch::http::transport::TransportBuilder, String, String))
        ensures
            builder_settings(r.0) == backend_settings(
                ClientView {
                    endpoint: endpoint@.text,
                    auth: auth_view(*auth),
                    skip_cert_validation,
                    user_agent: adapter_user_agent(),
                },
            ),
            r.1@ == endpoint@.text,
            r.2@ == adapter_user_agent(),
    {
        let (url, text) = endpoint.into_parts();
        let mut builder = builder_for(url);
        if let Some(a) = auth {
            builder = builder.auth(outside_credentials(a));
        }
        if skip_cert_validation {
            builder = without_cert_validation(builder);
        }
        let agent = user_agent();
        proof {
            reveal_strlit("elastic-mcp/0.4.0");
        }
        let value = match crate::headers::header_value(agent.as_str()) {
            Some(v) => v,
            None => vstd::pervasive::unreached(),
        };
        builder = with_user_agent(builder, value);
        (builder, text, agent)
    }

    /// Builds a single-node client for `endpoint`. Whether the transport can
    /// be built is up to the backend crate and the machine; where it can, the
    /// client records exactly what was handed over, and its backend client
    /// holds just that.
    pub fn build(endpoint: Endpoint, auth: Option<ClientAuth>, skip_cert_validation: bool) -> (r:
        Result<EsClient, String>)
        ensures
            r matches Ok(client) ==> client@ == (ClientView {
                endpoint: endpoint@.text,
                auth: auth_view(auth),
                skip_cert_validation,
                user_agent: adapter_user_agent(),
            }) && client.is_faithful(),
    {
        let (builder, text, agent) = Self::transport_builder(endpoint, &auth, skip_cert_validation);
        Self::from_transport(builder.build(), text, auth, skip_cert_validation, agent)
    }

    /// The client on a transport once the attempt to build it is over: there
    /// is a client just if there is a transport, and it records what the
    /// transport was built from.
    fn from_transport(
        built: Result<
            elasticsearch::http::transport::Transport,
            elasticsearch::http::transport::BuildError,
        >,
        endpoint: String,
        auth: Option<ClientAuth>,
        skip_cert_validation: bool,
        user_agent: String,
    ) -> (r: Result<EsClient, String>)
        requires
            user_agent@ == adapter_user_agent(),
            built matches Ok(transport) ==> transport_settings(transport) == backend_settings(
                ClientView {
                    endpoint: endpoint@,
                    auth: auth_view(auth),
                    skip_cert_validation,
                    user_agent: adapter_user_agent(),
                },
            ),
        ensures
            r is Ok == built is Ok,
            r matches Ok(client) ==> client@ == (ClientView {
                endpoint: endpoint@,
                auth: auth_view(auth),
                skip_cert_validation,
                user_agent: adapter_user_agent(),
            }) && client.is_faithful(),
    {
        match built {
            Ok(transport) => Ok(
                EsClient {
                    endpoint,
                    auth,
                    skip_cert_validation,
                    user_agent,
                    inner: elasticsearch::Elasticsearch::new(transport),
                },
            ),
            Err(e) => Err(build_error_text(&e)),
        }
    }
}

} // verus!
