use std::collections::HashMap;

use gql_client::{Client, ClientConfig, GQLProxy, ProxyAuth, ProxyType};

#[test]
fn test_url() {
    let url_raw = "https://subql.darwinia.network/subql-bridger-darwinia";
    let session = Client::new(url_raw).start_query("{ a }", "null").ok().unwrap();
    assert_eq!(
        "https://subql.darwinia.network",
        format!("{}://{}", session.scheme, session.host)
    );
}

#[test]
fn new_has_default_configuration() {
    let client = Client::new("https://host/api");
    assert_eq!(client.config().endpoint, "https://host/api");
    assert!(client.config().timeout.is_none());
    assert!(client.config().headers.is_none());
    assert!(client.config().proxy.is_none());
}

#[test]
fn new_with_headers_keeps_the_headers() {
    let mut headers = HashMap::new();
    headers.insert("authorization".to_string(), "Bearer t".to_string());
    let client = Client::new_with_headers("https://host/api", headers.clone());
    assert_eq!(client.config().headers, Some(headers));
}

#[test]
fn new_with_config_keeps_the_configuration() {
    let config = ClientConfig {
        endpoint: "https://host/api".to_string(),
        timeout: Some(30),
        headers: None,
        proxy: None,
    };
    let client = Client::new_with_config(config);
    assert_eq!(client.config().endpoint, "https://host/api");
    assert_eq!(client.config().timeout, Some(30));
}

#[test]
fn transport_uses_five_seconds_by_default() {
    let settings = Client::new("https://host/api").transport_settings().ok().unwrap();
    assert_eq!(settings.timeout_secs, 5);
    assert!(settings.proxy.is_none());
}

#[test]
fn transport_uses_the_configured_timeout_and_proxy() {
    let config = ClientConfig {
        endpoint: "https://host/api".to_string(),
        timeout: Some(30),
        headers: None,
        proxy: Some(GQLProxy {
            schema: "http://proxy.local:8080".to_string(),
            type_: ProxyType::All,
            auth: Some(ProxyAuth { username: "u".to_string(), password: "p".to_string() }),
        }),
    };
    let settings = Client::new_with_config(config).transport_settings().ok().unwrap();
    assert_eq!(settings.timeout_secs, 30);
    assert!(settings.proxy.is_some());
}

#[test]
fn transport_takes_each_kind_of_proxy() {
    for kind in [ProxyType::Http, ProxyType::Https, ProxyType::All] {
        let proxy = GQLProxy { schema: "http://proxy.local:3128".to_string(), type_: kind, auth: None };
        assert!(proxy.to_proxy().is_ok());
    }
}

#[test]
fn transport_refuses_a_proxy_it_cannot_use() {
    for kind in [ProxyType::Http, ProxyType::Https, ProxyType::All] {
        let config = ClientConfig {
            endpoint: "https://host/api".to_string(),
            timeout: None,
            headers: None,
            proxy: Some(GQLProxy { schema: "ftp://proxy.local".to_string(), type_: kind, auth: None }),
        };
        let e = Client::new_with_config(config).transport_settings().err().unwrap();
        assert!(e.json().is_none());
        assert!(!e.message().is_empty());
    }
}

#[test]
fn unparsable_endpoint_is_refused() {
    let e = Client::new("not a url").start_query("{ a }", "null").err().unwrap();
    assert!(e.message().starts_with("Wrong endpoint: not a url. "));
    assert!(e.json().is_none());
}

#[test]
fn endpoint_without_host_is_refused() {
    let e = Client::new("mailto:someone@example.com").start_query("{ a }", "null").err().unwrap();
    assert_eq!(e.message(), "Wrong endpoint: mailto:someone@example.com");
}

#[test]
fn start_query_frames_the_body() {
    let session = Client::new("https://host/api")
        .start_query("{post(id:\"2\"){id}}", "{\"id\":2}")
        .ok()
        .unwrap();
    assert_eq!(session.body, "{\"query\":\"{post(id:\\\"2\\\"){id}}\",\"variables\":{\"id\":2}}");
    assert_eq!(session.endpoint, "https://host/api");
    assert_eq!(session.original, "https://host/api");
    assert_eq!(session.scheme, "https");
    assert_eq!(session.host, "host");
    assert_eq!(session.hops, 1);
}

#[test]
fn start_query_escapes_control_characters() {
    let session = Client::new("https://host/api")
        .start_query("a\\b\n\t\r\u{8}\u{c}\u{1}\u{1f} é", "null")
        .ok()
        .unwrap();
    assert_eq!(
        session.body,
        "{\"query\":\"a\\\\b\\n\\t\\r\\b\\f\\u0001\\u001f é\",\"variables\":null}"
    );
}

#[test]
fn require_data_turns_absence_into_an_error() {
    let client = Client::new("https://host/api");
    let e = client.require_data::<u32>(Ok(None)).err().unwrap();
    assert_eq!(e.message(), "no data returned by server for this query, endpoint=https://host/api");
    assert_eq!(client.require_data(Ok(Some(7u32))).ok(), Some(7));
    let kept = client
        .require_data::<u32>(Err(gql_client::GraphQLError::with_text("boom")))
        .err()
        .unwrap();
    assert_eq!(kept.message(), "boom");
}
