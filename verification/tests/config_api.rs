use os_cli::api::ApiClient;
use os_cli::config::Config;

#[test]
fn default_config_has_localhost_url() {
    let config = Config::default();
    assert_eq!(config.api_url, "http://localhost:8080");
    assert_eq!(config.default_org, "agema-labs");
}

#[test]
fn default_config_has_no_credentials() {
    let config = Config::default();
    assert_eq!(config.token, "");
    assert!(config.github_token.is_none());
    assert!(config.upgrade_token().is_none());
}

#[test]
fn client_strips_trailing_slash() {
    let client = ApiClient::new("http://localhost:8080/", "token");
    assert_eq!(client.base_url(), "http://localhost:8080");
}

#[test]
fn is_authenticated_checks_token() {
    let authed = ApiClient::new("http://localhost:8080", "my-token");
    assert!(authed.is_authenticated());

    let unauthed = ApiClient::new("http://localhost:8080", "");
    assert!(!unauthed.is_authenticated());
}

#[test]
fn client_urls_and_header() {
    let client = ApiClient::new("https://api.example.com//", "t0k");
    assert_eq!(client.base_url(), "https://api.example.com");
    assert_eq!(client.url("/projects?limit=20"), "https://api.example.com/projects?limit=20");
    assert_eq!(client.authorization(), "Bearer t0k");
    assert_eq!(client.token(), "t0k");
}
