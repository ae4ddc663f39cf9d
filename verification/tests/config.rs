use form_state::auth::config::{AuthConfig, DEFAULT_JWKS_URL, DEFAULT_LEEWAY};

const TEST_URL: &str = "https://app.dynamic.xyz/api/v0/sdk/test123/.well-known/jwks";

#[test]
fn test_default_config() {
    let config = AuthConfig::from_env_values(None, None, None, None);
    assert_eq!(config.jwks_url, DEFAULT_JWKS_URL);
    assert_eq!(config.issuer, None);
    assert_eq!(config.audience, None);
    assert_eq!(config.leeway, DEFAULT_LEEWAY);
}

#[test]
fn test_custom_config() {
    let test_leeway = 120;
    let config = AuthConfig::from_env_values(
        Some(TEST_URL.to_string()),
        Some("test-issuer".to_string()),
        Some("test-audience".to_string()),
        Some(test_leeway.to_string()),
    );
    assert_eq!(config.jwks_url, TEST_URL);
    assert_eq!(config.issuer, Some("test-issuer".to_string()));
    assert_eq!(config.audience, Some("test-audience".to_string()));
    assert_eq!(config.leeway, test_leeway);
}

#[test]
fn test_validation() {
    let config = AuthConfig::from_env_values(None, None, None, None);
    assert!(config.validate().is_err());
    let config = AuthConfig::from_env_values(Some(TEST_URL.to_string()), None, None, None);
    assert!(config.validate().is_ok());
}

#[test]
fn test_jwks_url_default() {
    let config = AuthConfig::from_env_values(None, None, None, None);
    assert_eq!(config.jwks_url, DEFAULT_JWKS_URL);
}

#[test]
fn test_jwks_url_from_env() {
    let config = AuthConfig::from_env_values(Some(TEST_URL.to_string()), None, None, None);
    assert_eq!(config.jwks_url, TEST_URL);
}

#[test]
fn unparsable_leeway_falls_back_to_default() {
    let config = AuthConfig::from_env_values(None, None, None, Some("soon".to_string()));
    assert_eq!(config.leeway, DEFAULT_LEEWAY);
}
