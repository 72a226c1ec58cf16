use unifi_rs::{UnifiClientBuilder, UnifiError};

#[test]
fn test_client_builder() {
    let client = UnifiClientBuilder::new("https://example.com")
        .api_key("test-key")
        .verify_ssl(false)
        .build();
    assert!(client.is_ok());
}

#[test]
fn test_client_builder_missing_api_key() {
    let client = UnifiClientBuilder::new("https://example.com").verify_ssl(false).build();
    assert!(client.is_err());
    match client {
        Err(UnifiError::Config(message)) => {
            assert_eq!(message, "API key is required");
        }
        _ => panic!("Expected a configuration error"),
    }
}

#[test]
fn test_client_builder_rejects_unencodable_key() {
    let client = UnifiClientBuilder::new("https://example.com")
        .api_key("bad\nkey")
        .build();
    match client {
        Err(UnifiError::Config(message)) => {
            assert_eq!(message, "API key is not a valid header value");
        }
        _ => panic!("Expected a configuration error"),
    }
}

#[test]
fn test_client_builder_accepts_tab_and_unicode_key() {
    let client = UnifiClientBuilder::new("https://example.com")
        .api_key("key\twith-tab-\u{00e9}")
        .build();
    assert!(client.is_ok());
}

#[test]
fn test_error_describe() {
    let api = UnifiError::Api {
        status_code: 401,
        message: "Unauthorized access".to_string(),
    };
    assert_eq!(api.describe(), "API error: 401 - Unauthorized access");
    let config = UnifiError::Config("API key is required".to_string());
    assert_eq!(config.describe(), "Configuration error: API key is required");
}

#[test]
fn test_client_handle_reports_configuration() {
    let client = UnifiClientBuilder::new("https://example.com")
        .api_key("test-key")
        .verify_ssl(false)
        .build()
        .expect("Failed to create client");
    assert_eq!(client.base_url(), "https://example.com");
    assert_eq!(client.api_key(), "test-key");
    assert!(!client.verify_ssl());
    let duplicate = client.clone();
    assert_eq!(duplicate.base_url(), "https://example.com");
}
