use blackroad::BlackRoadClient;
use blackroad::ClientConfig;
use blackroad::Error;
use blackroad::Method;

fn some(s: &str) -> Option<String> {
    Some(String::from(s))
}

#[test]
fn default_config_is_all_none() {
    let c = ClientConfig::default();
    assert!(c.api_key.is_none());
    assert!(c.base_url.is_none());
    assert!(c.timeout_secs.is_none());
    assert!(c.max_retries.is_none());
}

#[test]
fn construction_without_any_key_fails_with_authentication_error() {
    let r = BlackRoadClient::new(ClientConfig::default(), None, None);
    match r {
        Err(Error::Authentication(msg)) => {
            assert_eq!(
                msg,
                "API key required. Set BLACKROAD_API_KEY environment variable or pass api_key in config."
            );
        }
        _ => panic!("expected an authentication error"),
    }
}

#[test]
fn empty_explicit_key_counts_as_absent() {
    let mut config = ClientConfig::default();
    config.api_key = some("");
    let c = BlackRoadClient::new(config, some("from-env"), None).unwrap();
    assert_eq!(c.api_key, "from-env");
    let mut config = ClientConfig::default();
    config.api_key = some("");
    let r = BlackRoadClient::new(config, None, None);
    assert!(matches!(r, Err(Error::Authentication(_))));
}

#[test]
fn empty_environment_key_does_not_resolve() {
    let r = BlackRoadClient::new(ClientConfig::default(), some(""), None);
    assert!(matches!(r, Err(Error::Authentication(_))));
}

#[test]
fn zero_max_retries_resolves_to_one_attempt() {
    let mut config = ClientConfig::default();
    config.api_key = some("k");
    config.max_retries = Some(0);
    let c = BlackRoadClient::new(config, None, None).unwrap();
    assert_eq!(c.max_retries, 1);
}

#[test]
fn explicit_key_wins_over_environment_key() {
    let mut config = ClientConfig::default();
    config.api_key = some("explicit");
    let c = BlackRoadClient::new(config, some("from-env"), None).unwrap();
    assert_eq!(c.api_key, "explicit");
}

#[test]
fn environment_key_is_used_when_no_explicit_key() {
    let c = BlackRoadClient::new(ClientConfig::default(), some("from-env"), None).unwrap();
    assert_eq!(c.api_key, "from-env");
}

#[test]
fn defaults_resolve_when_config_is_empty() {
    let c = BlackRoadClient::new(ClientConfig::default(), some("k"), None).unwrap();
    assert_eq!(c.base_url, "https://api.blackroad.io/v1");
    assert_eq!(c.timeout_secs, 30);
    assert_eq!(c.max_retries, 3);
}

#[test]
fn explicit_settings_win() {
    let mut config = ClientConfig::default();
    config.api_key = some("k");
    config.base_url = some("https://other.example/api");
    config.timeout_secs = Some(5);
    config.max_retries = Some(7);
    let c = BlackRoadClient::new(config, None, some("https://env.example")).unwrap();
    assert_eq!(c.base_url, "https://other.example/api");
    assert_eq!(c.timeout_secs, 5);
    assert_eq!(c.max_retries, 7);
}

#[test]
fn environment_base_url_is_used_when_no_explicit_one() {
    let c = BlackRoadClient::new(ClientConfig::default(), some("k"), some("https://env.example"))
        .unwrap();
    assert_eq!(c.base_url, "https://env.example");
}

#[test]
fn trailing_slashes_are_stripped_from_base_url() {
    let mut config = ClientConfig::default();
    config.api_key = some("k");
    config.base_url = some("https://x.example/api///");
    let c = BlackRoadClient::new(config, None, None).unwrap();
    assert_eq!(c.base_url, "https://x.example/api");
}

#[test]
fn request_urls_have_no_double_slash_at_the_join_point() {
    let mut config = ClientConfig::default();
    config.api_key = some("k");
    config.base_url = some("https://x.example/api/");
    let c = BlackRoadClient::new(config, None, None).unwrap();
    let desc = c.agents().get("abc");
    let url = c.request_url(&desc);
    assert_eq!(url, "https://x.example/api/agents/abc");
    assert!(!url.contains("//agents"));
}

#[test]
fn endpoint_leading_slashes_are_stripped_in_urls() {
    let mut config = ClientConfig::default();
    config.api_key = some("k");
    config.base_url = some("https://x.example");
    let c = BlackRoadClient::new(config, None, None).unwrap();
    let mut desc = c.health();
    desc.path = String::from("health");
    assert_eq!(c.request_url(&desc), "https://x.example/health");
    desc.path = String::from("///health");
    assert_eq!(c.request_url(&desc), "https://x.example/health");
}

#[test]
fn query_string_is_appended_and_percent_encoded() {
    let c = BlackRoadClient::new(ClientConfig::default(), some("k"), None).unwrap();
    let mut desc = c.memory().verify_chain(Some("hash with space/slash"));
    assert_eq!(
        c.request_url(&desc),
        "https://api.blackroad.io/v1/memory/verify?start=hash%20with%20space%2Fslash"
    );
    desc.query.clear();
    assert_eq!(c.request_url(&desc), "https://api.blackroad.io/v1/memory/verify");
}

#[test]
fn headers_carry_bearer_auth_json_content_type_and_user_agent() {
    let c = BlackRoadClient::new(ClientConfig::default(), some("secret-key"), None).unwrap();
    let headers = c.headers();
    assert_eq!(headers.len(), 3);
    assert_eq!(headers[0].0, "Authorization");
    assert_eq!(headers[0].1, "Bearer secret-key");
    assert_eq!(headers[1].0, "Content-Type");
    assert_eq!(headers[1].1, "application/json");
    assert_eq!(headers[2].0, "User-Agent");
    assert_eq!(headers[2].1, "blackroad-rust/1.0.0");
}

#[test]
fn health_and_version_descriptors() {
    let c = BlackRoadClient::new(ClientConfig::default(), some("k"), None).unwrap();
    let health = c.health();
    assert_eq!(health.method, Method::Get);
    assert_eq!(health.path, "/health");
    assert!(health.query.is_empty());
    assert!(health.body.is_none());
    assert!(health.envelope.is_none());
    let version = c.version();
    assert_eq!(version.method, Method::Get);
    assert_eq!(version.path, "/version");
    assert_eq!(version.envelope, Some(String::from("version")));
}

#[test]
fn facades_share_the_client_settings() {
    let c = BlackRoadClient::new(ClientConfig::default(), some("k"), None).unwrap();
    assert_eq!(c.agents().client.api_key, c.api_key);
    assert_eq!(c.tasks().client.base_url, c.base_url);
    assert_eq!(c.memory().client.max_retries, c.max_retries);
}
