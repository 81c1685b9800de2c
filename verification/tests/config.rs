use schema_registry::client::config::{Authentication, SchemaRegistryConfig};

fn headers() -> Vec<(String, String)> {
    vec![("x_app_id".to_owned(), "my-app".to_owned())]
}

struct MockEnvRequiredVars {
    schema_registry_url: String,
    schema_registry_username: String,
    schema_registry_password: String,
    schema_registry_proxy: String,
    schema_registry_headers: Vec<(String, String)>,
}

fn required_vars() -> MockEnvRequiredVars {
    MockEnvRequiredVars {
        schema_registry_url: "http://localhost:8081".to_owned(),
        schema_registry_username: "sr-username".to_owned(),
        schema_registry_password: "sr-password".to_owned(),
        schema_registry_proxy: "http://localhost:9999".to_owned(),
        schema_registry_headers: headers(),
    }
}

struct MockEnvOptionalVars {
    schema_registry_url: String,
    schema_registry_username: Option<String>,
    schema_registry_password: Option<String>,
    schema_registry_token: Option<String>,
    schema_registry_proxy: Option<String>,
    schema_registry_headers: Vec<(String, String)>,
}

fn optional_vars() -> MockEnvOptionalVars {
    MockEnvOptionalVars {
        schema_registry_url: "http://localhost:8081".to_owned(),
        schema_registry_username: None,
        schema_registry_password: None,
        schema_registry_token: None,
        schema_registry_proxy: None,
        schema_registry_headers: Vec::new(),
    }
}

fn with_username(mut app: MockEnvOptionalVars) -> MockEnvOptionalVars {
    app.schema_registry_username = Some("sr-username".to_owned());
    app
}

fn with_password(mut app: MockEnvOptionalVars) -> MockEnvOptionalVars {
    app.schema_registry_password = Some("sr-password".to_owned());
    app
}

fn with_token(mut app: MockEnvOptionalVars) -> MockEnvOptionalVars {
    app.schema_registry_token = Some("sr-token".to_owned());
    app
}

fn with_proxy(mut app: MockEnvOptionalVars) -> MockEnvOptionalVars {
    app.schema_registry_proxy = Some("http://localhost:9999".to_owned());
    app
}

fn with_headers(mut app: MockEnvOptionalVars) -> MockEnvOptionalVars {
    app.schema_registry_headers = headers();
    app
}

#[test]
fn create_full_config_with_required_vars_and_basic_auth() {
    let app = required_vars();

    let config = SchemaRegistryConfig::new()
        .url(&app.schema_registry_url)
        .basic_auth(Some(&app.schema_registry_username), Some(&app.schema_registry_password))
        .proxy(Some(&app.schema_registry_proxy))
        .headers(app.schema_registry_headers.clone());

    assert_eq!(config.urls[0], app.schema_registry_url);
    assert!(matches!(
        config.authentication.unwrap(),
        Authentication::Basic { .. }
    ));
    assert_eq!(config.proxy.unwrap(), app.schema_registry_proxy);
    assert_eq!(config.headers.unwrap(), app.schema_registry_headers);
}

#[test]
fn create_full_config_with_optional_vars_and_basic_auth() {
    let app = with_headers(with_proxy(with_password(with_username(optional_vars()))));

    let config = SchemaRegistryConfig::new()
        .url(&app.schema_registry_url)
        .basic_auth(
            app.schema_registry_username.as_ref(),
            app.schema_registry_password.as_ref(),
        )
        .proxy(app.schema_registry_proxy.as_ref())
        .headers(app.schema_registry_headers.clone());

    assert_eq!(config.urls[0], app.schema_registry_url);
    assert!(matches!(
        config.authentication.unwrap(),
        Authentication::Basic { .. }
    ));
    assert_eq!(config.proxy.unwrap(), app.schema_registry_proxy.unwrap());
    assert_eq!(config.headers.unwrap(), app.schema_registry_headers);
}

#[test]
fn create_config_with_basic_auth() {
    let app = with_password(with_username(optional_vars()));

    let config = SchemaRegistryConfig::new()
        .url(&app.schema_registry_url)
        .basic_auth(
            app.schema_registry_username.as_ref(),
            app.schema_registry_password.as_ref(),
        );

    assert_eq!(config.urls[0], app.schema_registry_url);
    assert!(matches!(
        config.authentication.unwrap(),
        Authentication::Basic { .. }
    ));
}

#[test]
fn ignore_basic_auth_if_provided_variables_are_empty() {
    let app = optional_vars();

    let config = SchemaRegistryConfig::new()
        .url(&app.schema_registry_url)
        .basic_auth(
            app.schema_registry_username.as_ref(),
            app.schema_registry_password.as_ref(),
        );

    assert_eq!(config.urls[0], app.schema_registry_url);
    assert!(config.authentication.is_none());
}

#[test]
fn create_config_with_bearer_auth() {
    let app = with_token(optional_vars());

    let config = SchemaRegistryConfig::new()
        .url(&app.schema_registry_url)
        .bearer_auth(app.schema_registry_token.as_ref());

    assert_eq!(config.urls[0], app.schema_registry_url);
    assert!(matches!(
        config.authentication.unwrap(),
        Authentication::Bearer { .. }
    ))
}

#[test]
fn add_additional_headers() {
    let app = with_headers(optional_vars());

    let config = SchemaRegistryConfig::new()
        .url(&app.schema_registry_url)
        .headers(app.schema_registry_headers.clone());

    assert_eq!(config.urls[0], app.schema_registry_url);
    assert!(config.authentication.is_none());
    assert_eq!(config.headers.unwrap().len(), 1);
}

#[test]
fn a_new_config_holds_nothing() {
    let config = SchemaRegistryConfig::new();
    assert!(config.urls.is_empty());
    assert!(config.authentication.is_none());
    assert!(config.proxy.is_none());
    assert!(config.headers.is_none());
    let config = SchemaRegistryConfig::default();
    assert!(config.urls.is_empty() && config.headers.is_none());
}

#[test]
fn urls_keep_their_order() {
    let config = SchemaRegistryConfig::new().url("http://a").url("http://b").url("http://c");
    assert_eq!(config.urls, vec!["http://a", "http://b", "http://c"]);
}

#[test]
fn the_later_authentication_replaces_the_earlier() {
    let user = "u".to_string();
    let token = "t".to_string();
    let config = SchemaRegistryConfig::new().basic_auth(Some(&user), None).bearer_auth(Some(&token));
    assert!(config.authentication == Some(Authentication::Bearer { token: "t".to_string() }));
    let config = config.basic_auth(Some(&user), Some(&token));
    assert!(
        config.authentication
            == Some(Authentication::Basic {
                username: "u".to_string(),
                password: Some("t".to_string())
            })
    );
    // Without a token nothing changes.
    let config = config.bearer_auth(None);
    assert!(matches!(config.authentication, Some(Authentication::Basic { .. })));
}

#[test]
fn a_proxy_that_is_not_given_is_taken_away() {
    let proxy = "http://p".to_string();
    let config = SchemaRegistryConfig::new().proxy(Some(&proxy));
    assert_eq!(config.proxy.as_deref(), Some("http://p"));
    assert!(config.proxy(None).proxy.is_none());
}

#[test]
fn each_header_name_is_kept_once_with_its_last_value() {
    let pair = |k: &str, v: &str| (k.to_string(), v.to_string());
    let config = SchemaRegistryConfig::new().headers(vec![
        pair("a", "1"),
        pair("b", "2"),
        pair("a", "3"),
        pair("c", "4"),
        pair("b", "5"),
    ]);
    assert_eq!(config.headers.unwrap(), vec![pair("a", "3"), pair("b", "5"), pair("c", "4")]);
    let config = SchemaRegistryConfig::new().headers(Vec::new());
    assert_eq!(config.headers, Some(Vec::new()));
}
