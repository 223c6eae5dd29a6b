use elastic_mcp::client::{user_agent, ClientAuth, EsClient};
use elastic_mcp::endpoint::Endpoint;
use elastic_mcp::provider::{fix_authorization, ClientError, EffectiveClient, EsClientProvider};
use http::{HeaderMap, HeaderValue};

fn default_client(skip: bool) -> EsClient {
    let endpoint = Endpoint::parse("http://localhost:9200").expect("a valid address");
    EsClient::build(endpoint, Some(ClientAuth::EncodedApiKey("default-key".to_string())), skip)
        .expect("the default client builds")
}

fn provider(skip: bool) -> EsClientProvider {
    EsClientProvider::new(default_client(skip), skip)
}

fn headers(url: Option<&str>, auth: Option<&str>) -> HeaderMap {
    let mut map = HeaderMap::new();
    if let Some(url) = url {
        map.insert("X-Elasticsearch-URL", HeaderValue::from_str(url).unwrap());
    }
    if let Some(auth) = auth {
        map.insert(http::header::AUTHORIZATION, HeaderValue::from_str(auth).unwrap());
    }
    map
}

#[test]
fn no_metadata_gives_the_default_client() {
    let provider = provider(false);
    let effective = provider.get(None).client;
    assert!(matches!(effective, EffectiveClient::Shared(_)));
    assert_eq!(effective.client().endpoint(), "http://localhost:9200/");
    assert_eq!(
        effective.client().auth(),
        &Some(ClientAuth::EncodedApiKey("default-key".to_string()))
    );
}

#[test]
fn no_override_header_gives_the_default_client_itself() {
    let provider = provider(false);
    let mut map = HeaderMap::new();
    map.insert("content-type", HeaderValue::from_static("application/json"));
    match provider.get(Some(&map)).client {
        EffectiveClient::Shared(client) => {
            let again = provider.get(None).client;
            assert!(std::ptr::eq(client, again.client()));
        }
        EffectiveClient::Owned(_) => panic!("a client was made without any override"),
    }
}

#[test]
fn bearer_prefix_is_dropped_from_api_key_and_basic() {
    assert_eq!(fix_authorization("Bearer ApiKey abc123"), "ApiKey abc123");
    assert_eq!(fix_authorization("Bearer Basic dXNlcjpwdw=="), "Basic dXNlcjpwdw==");
    assert_eq!(fix_authorization("Bearer ApiKey "), "ApiKey ");
}

#[test]
fn other_authorization_values_pass_unchanged() {
    assert_eq!(fix_authorization("Bearer token"), "Bearer token");
    assert_eq!(fix_authorization("ApiKey abc123"), "ApiKey abc123");
    assert_eq!(fix_authorization("Basic dXNlcjpwdw=="), "Basic dXNlcjpwdw==");
    assert_eq!(fix_authorization("Bearer ApiKey"), "Bearer ApiKey");
    assert_eq!(fix_authorization("bearer ApiKey x"), "bearer ApiKey x");
    assert_eq!(fix_authorization(""), "");
}

#[test]
fn only_the_first_bearer_is_dropped() {
    assert_eq!(fix_authorization("Bearer Basic Bearer x"), "Basic Bearer x");
}

#[test]
fn valid_override_url_gives_a_client_for_it() {
    let provider = provider(true);
    let map = headers(Some("http://example.com:9201"), Some("Bearer ApiKey abc"));
    let effective = provider.get(Some(&map)).client;
    assert!(matches!(effective, EffectiveClient::Owned(_)));
    let client = effective.client();
    assert_eq!(client.endpoint(), "http://example.com:9201/");
    assert_eq!(client.auth(), &Some(ClientAuth::AuthorizationHeader("ApiKey abc".to_string())));
    assert!(client.skip_cert_validation());
    assert_eq!(client.user_agent(), &user_agent());
}

#[test]
fn valid_override_url_without_authorization_has_no_credentials() {
    let provider = provider(false);
    let map = headers(Some("https://es.internal/"), None);
    let effective = provider.get(Some(&map)).client;
    assert!(matches!(effective, EffectiveClient::Owned(_)));
    assert_eq!(effective.client().endpoint(), "https://es.internal/");
    assert_eq!(effective.client().auth(), &None);
    assert!(!effective.client().skip_cert_validation());
}

#[test]
fn invalid_override_url_with_authorization_falls_back_to_default_transport() {
    let provider = provider(true);
    let map = headers(Some("not a url"), Some("Bearer Basic dXNlcjpwdw=="));
    let effective = provider.get(Some(&map)).client;
    assert!(matches!(effective, EffectiveClient::Owned(_)));
    let client = effective.client();
    assert_eq!(client.endpoint(), "http://localhost:9200/");
    assert_eq!(
        client.auth(),
        &Some(ClientAuth::AuthorizationHeader("Basic dXNlcjpwdw==".to_string()))
    );
    assert!(client.skip_cert_validation());
    assert_eq!(client.user_agent(), "elastic-mcp/0.4.0");
}

#[test]
fn invalid_override_url_without_authorization_gives_the_default_client() {
    let provider = provider(false);
    let map = headers(Some("://missing-scheme"), None);
    let effective = provider.get(Some(&map)).client;
    assert!(matches!(effective, EffectiveClient::Shared(_)));
    assert_eq!(effective.client().endpoint(), "http://localhost:9200/");
}

#[test]
fn authorization_alone_replaces_the_credentials_only() {
    let provider = provider(false);
    let map = headers(None, Some("ApiKey other"));
    let effective = provider.get(Some(&map)).client;
    assert!(matches!(effective, EffectiveClient::Owned(_)));
    assert_eq!(effective.client().endpoint(), "http://localhost:9200/");
    assert_eq!(
        effective.client().auth(),
        &Some(ClientAuth::AuthorizationHeader("ApiKey other".to_string()))
    );
}

#[test]
fn header_names_match_without_regard_to_case() {
    let provider = provider(false);
    let mut map = HeaderMap::new();
    map.insert("x-elasticsearch-url", HeaderValue::from_static("http://lower.example/"));
    map.insert("Authorization", HeaderValue::from_static("Basic abc"));
    let effective = provider.get(Some(&map)).client;
    assert_eq!(effective.client().endpoint(), "http://lower.example/");
    assert_eq!(
        effective.client().auth(),
        &Some(ClientAuth::AuthorizationHeader("Basic abc".to_string()))
    );
}

#[test]
fn the_first_of_several_values_counts() {
    let provider = provider(false);
    let mut map = HeaderMap::new();
    map.append("x-elasticsearch-url", HeaderValue::from_static("http://first.example/"));
    map.append("x-elasticsearch-url", HeaderValue::from_static("http://second.example/"));
    let effective = provider.get(Some(&map)).client;
    assert_eq!(effective.client().endpoint(), "http://first.example/");
}

#[test]
fn a_header_value_that_is_not_visible_ascii_counts_as_absent() {
    let provider = provider(false);
    let mut map = HeaderMap::new();
    map.insert("x-elasticsearch-url", HeaderValue::from_bytes(b"http://caf\xc3\xa9.example/").unwrap());
    map.insert("authorization", HeaderValue::from_bytes(b"Basic \xff").unwrap());
    let effective = provider.get(Some(&map)).client;
    assert!(matches!(effective, EffectiveClient::Shared(_)));
}

#[test]
fn resolve_takes_the_values_directly() {
    let provider = provider(false);
    assert!(matches!(provider.resolve(None, None).client, EffectiveClient::Shared(_)));
    let effective =
        provider.resolve(Some("http://10.0.0.7:9200/base"), Some("Bearer ApiKey k")).client;
    assert_eq!(effective.client().endpoint(), "http://10.0.0.7:9200/base");
    assert_eq!(
        effective.client().auth(),
        &Some(ClientAuth::AuthorizationHeader("ApiKey k".to_string()))
    );
}

#[test]
fn select_prefers_the_built_client() {
    let provider = provider(false);
    let endpoint = Endpoint::parse("http://built.example").unwrap();
    let built = EsClient::build(endpoint, None, false).unwrap();
    let effective = provider.select(Some(built), Some("Basic x"));
    assert_eq!(effective.client().endpoint(), "http://built.example/");
    assert_eq!(effective.client().auth(), &None);
    let effective = provider.select(None, Some("Basic x"));
    assert_eq!(effective.client().endpoint(), "http://localhost:9200/");
    assert_eq!(
        effective.client().auth(),
        &Some(ClientAuth::AuthorizationHeader("Basic x".to_string()))
    );
    assert!(matches!(provider.select(None, None), EffectiveClient::Shared(_)));
}

#[test]
fn build_client_with_url_reports_an_invalid_url() {
    let provider = provider(false);
    match provider.build_client_with_url("https://es.example:9243/a b", None) {
        Ok(client) => assert_eq!(client.endpoint(), "https://es.example:9243/a%20b"),
        Err(e) => panic!("unexpected error {:?}", e),
    }
    match provider.build_client_with_url("/relative", Some("ApiKey k")) {
        Err(ClientError::InvalidUrl(message)) => {
            assert_eq!(message, "relative URL without a base")
        }
        other => panic!("unexpected outcome {:?}", other.map(|c| c.endpoint().clone())),
    }
}

#[test]
fn endpoint_parse_gives_text_and_host() {
    let endpoint = Endpoint::parse("HTTP://LocalHost:9200").unwrap();
    assert_eq!(endpoint.text(), "http://localhost:9200/");
    assert_eq!(endpoint.host(), &Some("localhost".to_string()));
    let endpoint = Endpoint::parse("mailto:ops@example.com").unwrap();
    assert_eq!(endpoint.host(), &None);
    assert_eq!(Endpoint::parse("").err(), Some("relative URL without a base".to_string()));
}

#[test]
fn endpoint_with_host_replaces_the_host_only() {
    let endpoint = Endpoint::parse("http://localhost:9200/es?x=1").unwrap();
    let moved = endpoint.with_host("host.docker.internal").expect("the URL takes the host");
    assert_eq!(moved.text(), "http://host.docker.internal:9200/es?x=1");
    assert_eq!(moved.host(), &Some("host.docker.internal".to_string()));
    assert_eq!(endpoint.text(), "http://localhost:9200/es?x=1");
}

#[test]
fn endpoint_with_host_gives_nothing_where_the_url_refuses() {
    let endpoint = Endpoint::parse("mailto:ops@example.com").unwrap();
    assert!(endpoint.with_host("host.docker.internal").is_none());
    assert_eq!(endpoint.text(), "mailto:ops@example.com");
    let endpoint = Endpoint::parse("http://localhost:9200").unwrap();
    assert!(endpoint.with_host("").is_none());
    assert!(endpoint.with_host("a b").is_none());
}

#[test]
fn an_override_that_is_used_is_not_reported() {
    let provider = provider(false);
    let map = headers(Some("http://example.com:9201"), Some("ApiKey abc"));
    let resolution = provider.get(Some(&map));
    assert_eq!(resolution.rejected, None);
    assert!(matches!(resolution.client, EffectiveClient::Owned(_)));
    assert_eq!(provider.get(None).rejected, None);
    let map = headers(None, Some("ApiKey abc"));
    assert_eq!(provider.get(Some(&map)).rejected, None);
}

#[test]
fn an_override_that_is_no_url_is_reported_with_the_reason() {
    let provider = provider(false);
    let map = headers(Some("not a url"), Some("ApiKey abc"));
    let resolution = provider.get(Some(&map));
    assert_eq!(
        resolution.rejected,
        Some(ClientError::InvalidUrl("relative URL without a base".to_string()))
    );
    assert_eq!(resolution.client.client().endpoint(), "http://localhost:9200/");
    let resolution = provider.resolve(Some("http://"), None);
    assert_eq!(resolution.rejected, Some(ClientError::InvalidUrl("empty host".to_string())));
    assert!(matches!(resolution.client, EffectiveClient::Shared(_)));
}

#[test]
fn the_default_credentials_do_not_go_to_an_override_address() {
    let provider = provider(false);
    assert!(provider.client().auth().is_some());
    let resolution = provider.resolve(Some("http://elsewhere.example:9200"), None);
    assert_eq!(resolution.rejected, None);
    assert_eq!(resolution.client.client().auth(), &None);
    assert_eq!(resolution.client.client().endpoint(), "http://elsewhere.example:9200/");
}
