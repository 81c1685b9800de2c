use schema_registry::client::config::SchemaRegistryConfig;
use schema_registry::client::transport::{
    build_headers, build_http_client, build_proxy, default_headers,
};
use schema_registry::client::SchemaRegistryClient;
use schema_registry::error::{ConfigurationError, SchemaRegistryError};

fn pair(k: &str, v: &str) -> (String, String) {
    (k.to_string(), v.to_string())
}

#[test]
fn headers_are_inserted_under_their_small_letter_names() {
    let map = build_headers(&vec![pair("X-App-Id", "my-app"), pair("x_trace", "on")])
        .expect("a header map");
    assert_eq!(map.len(), 2);
    assert_eq!(map.get("x-app-id").unwrap().as_bytes(), b"my-app");
    assert_eq!(map.get("x_trace").unwrap().as_bytes(), b"on");
    assert!(!map.get("x-app-id").unwrap().is_sensitive());
    let names: Vec<&str> = map.keys().map(|k| k.as_str()).collect();
    assert!(names.contains(&"x-app-id"));
}

#[test]
fn the_later_of_two_values_for_one_name_stands() {
    let map = build_headers(&vec![pair("X-A", "1"), pair("x-a", "2")]).expect("a header map");
    assert_eq!(map.len(), 1);
    assert_eq!(map.get_all("x-a").iter().count(), 1);
    assert_eq!(map.get("x-a").unwrap().as_bytes(), b"2");
}

#[test]
fn no_headers_make_an_empty_map() {
    assert!(build_headers(&Vec::new()).expect("a header map").is_empty());
}

#[test]
fn the_first_pair_that_is_refused_gives_the_error() {
    assert!(matches!(
        build_headers(&vec![pair("ok", "v"), pair("bad name", "v"), pair("ok2", "v\n")]),
        Err(ConfigurationError::InvalidHeaderName { .. })
    ));
    assert!(matches!(
        build_headers(&vec![pair("ok", "v\n"), pair("bad name", "v")]),
        Err(ConfigurationError::InvalidHeaderValue { .. })
    ));
    // The name is looked at before the value.
    assert!(matches!(
        build_headers(&vec![pair("", "v\n")]),
        Err(ConfigurationError::InvalidHeaderName { .. })
    ));
    assert!(matches!(
        build_headers(&vec![pair("caf\u{e9}", "v")]),
        Err(ConfigurationError::InvalidHeaderName { .. })
    ));
    // A value may hold bytes beyond ASCII.
    assert!(build_headers(&vec![pair("name", "caf\u{e9}")]).is_ok());
}

#[test]
fn credentials_go_over_the_configured_headers() {
    let token = "t0k3n".to_string();
    let conf = SchemaRegistryConfig::new()
        .url("http://localhost:8081")
        .headers(vec![pair("Authorization", "mine"), pair("x-app", "a")])
        .bearer_auth(Some(&token));
    let map = default_headers(&conf).expect("a header map");
    assert_eq!(map.len(), 2);
    assert_eq!(map.get("authorization").unwrap().as_bytes(), b"Bearer t0k3n");
    assert!(map.get("authorization").unwrap().is_sensitive());
    assert_eq!(map.get("x-app").unwrap().as_bytes(), b"a");

    let user = "user".to_string();
    let pass = "pass".to_string();
    let conf = SchemaRegistryConfig::new().basic_auth(Some(&user), Some(&pass));
    let map = default_headers(&conf).expect("a header map");
    assert_eq!(map.get("authorization").unwrap().as_bytes(), b"Basic dXNlcjpwYXNz");
    assert!(default_headers(&SchemaRegistryConfig::new()).expect("a map").is_empty());
}

#[test]
fn a_header_error_comes_before_a_credentials_error() {
    let token = "to\nken".to_string();
    let conf = SchemaRegistryConfig::new()
        .headers(vec![pair("bad name", "v")])
        .bearer_auth(Some(&token));
    assert!(matches!(default_headers(&conf), Err(ConfigurationError::InvalidHeaderName { .. })));
    let conf = SchemaRegistryConfig::new().bearer_auth(Some(&token));
    assert!(matches!(default_headers(&conf), Err(ConfigurationError::InvalidHeaderValue { .. })));
}

#[test]
fn a_proxy_url_is_accepted_or_refused() {
    assert!(build_proxy(&"http://localhost:9999".to_string()).is_ok());
    assert!(matches!(
        build_proxy(&"".to_string()),
        Err(ConfigurationError::Proxy { .. })
    ));
}

#[test]
fn a_client_is_built_from_a_configuration() {
    let proxy = "http://localhost:9999".to_string();
    let token = "sr-token".to_string();
    let conf = SchemaRegistryConfig::new()
        .url("http://localhost:8081")
        .url("http://localhost:8082")
        .bearer_auth(Some(&token))
        .proxy(Some(&proxy))
        .headers(vec![pair("x_app_id", "my-app")]);
    assert!(build_http_client(&conf).is_ok());
    let client = SchemaRegistryClient::from_conf(conf).expect("a client");
    assert_eq!(client.urls(), &vec!["http://localhost:8081".to_string(), "http://localhost:8082".to_string()]);
    assert!(client.has_endpoints());
    let copy = client.clone();
    assert_eq!(copy.urls(), client.urls());
}

#[test]
fn a_client_for_one_url() {
    let client = SchemaRegistryClient::from_url("http://localhost:8081").expect("a client");
    assert_eq!(client.urls(), &vec!["http://localhost:8081".to_string()]);
    assert!(client.has_endpoints());
}

#[test]
fn a_configuration_that_is_refused_builds_no_client() {
    let conf = SchemaRegistryConfig::new().url("http://r").headers(vec![pair("bad name", "v")]);
    assert!(matches!(
        SchemaRegistryClient::from_conf(conf),
        Err(SchemaRegistryError::Configuration(ConfigurationError::InvalidHeaderName { .. }))
    ));
    let proxy = "".to_string();
    let conf = SchemaRegistryConfig::new().url("http://r").proxy(Some(&proxy));
    assert!(matches!(
        SchemaRegistryClient::from_conf(conf),
        Err(SchemaRegistryError::Configuration(ConfigurationError::Proxy { .. }))
    ));
}

#[test]
fn a_client_without_endpoints_can_make_no_call() {
    let client = SchemaRegistryClient::from_conf(SchemaRegistryConfig::new()).expect("a client");
    assert!(!client.has_endpoints());
    let request = client.get_subjects(false);
    assert_eq!(request.calls(), 0);
    assert!(schema_registry::client::executor::Race::start(request.calls()).is_none());
}

#[test]
fn a_bearer_token_that_is_refused_builds_no_client() {
    let token = "to\nken".to_string();
    let conf = SchemaRegistryConfig::new().url("http://r").bearer_auth(Some(&token));
    assert!(matches!(
        build_http_client(&conf),
        Err(ConfigurationError::InvalidHeaderValue { .. })
    ));
    assert!(matches!(
        SchemaRegistryClient::from_conf(conf),
        Err(SchemaRegistryError::Configuration(ConfigurationError::InvalidHeaderValue { .. }))
    ));
}

#[test]
fn a_header_error_comes_before_a_proxy_error() {
    let proxy = "".to_string();
    let conf = SchemaRegistryConfig::new()
        .url("http://r")
        .headers(vec![pair("ok", "v\n")])
        .proxy(Some(&proxy));
    assert!(matches!(
        build_http_client(&conf),
        Err(ConfigurationError::InvalidHeaderValue { .. })
    ));
    let user = "u".to_string();
    let conf = SchemaRegistryConfig::new().basic_auth(Some(&user), None).proxy(Some(&proxy));
    assert!(matches!(build_http_client(&conf), Err(ConfigurationError::Proxy { .. })));
}
