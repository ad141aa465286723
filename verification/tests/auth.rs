use mcp_agent::mcp::auth::{AuthCredentials, AuthMethod, AuthService, AuthToken};
use mcp_agent::utils::error::McpError;

#[test]
fn test_api_key_auth() {
    let mut service = AuthService::new();
    let credentials = AuthCredentials::api_key("test-api-key".to_string());
    let cred_id = credentials.id.clone();
    service.add_credentials(credentials).unwrap();
    let token = service.get_token(&cred_id).unwrap();
    assert_eq!(token.token_type, AuthMethod::ApiKey);
    assert_eq!(token.token, "test-api-key");
    assert!(!token.is_expired());
    let header = token.header_value();
    assert_eq!(header, "ApiKey test-api-key");
    service.validate_token(&header).unwrap();
}

#[test]
fn tokens_expire_and_are_renewed() {
    let mut service = AuthService::new();
    let credentials = AuthCredentials::oauth2("c".to_string(), "s".to_string(), "e".to_string(), None);
    let cred_id = credentials.id.clone();
    service.add_credentials(credentials).unwrap();
    let first = service.get_token_at(&cred_id, 1000, "first".to_string()).unwrap();
    assert_eq!(first.expires_at, Some(4600));
    let same = service.get_token_at(&cred_id, 2000, "second".to_string()).unwrap();
    assert_eq!(same.token, "first");
    let renewed = service.get_token_at(&cred_id, 4600, "second".to_string()).unwrap();
    assert_eq!(renewed.token, "second");
    assert_eq!(service.validate_token_at("OAuth2 second", 5000), Ok(()));
    assert_eq!(
        service.validate_token_at("OAuth2 second", 9000),
        Err(McpError::AuthenticationError("Token expired".to_string()))
    );
}

#[test]
fn header_errors() {
    let service = AuthService::new();
    assert_eq!(
        service.validate_token("nospace"),
        Err(McpError::AuthenticationError("Invalid Authorization header format".to_string()))
    );
    assert_eq!(
        service.validate_token("Bearer abc"),
        Err(McpError::AuthenticationError("Invalid token".to_string()))
    );
    let mut service = AuthService::new();
    assert_eq!(
        service.get_token("missing"),
        Err(McpError::AuthenticationError("Credentials not found: missing".to_string()))
    );
    let t = AuthToken::new_at("x".to_string(), AuthMethod::Custom("Mine".to_string()), Some(10), 5);
    assert_eq!(t.expires_at, Some(15));
    assert_eq!(t.header_value(), "Mine x");
    assert!(t.is_expired_at(15));
    assert!(!t.is_expired_at(14));
}

#[test]
fn handed_tokens_have_not_expired_when_handed() {
    let mut service = AuthService::new();
    let credentials = AuthCredentials::oauth2("c".to_string(), "s".to_string(), "e".to_string(), None);
    let cred_id = credentials.id.clone();
    service.add_credentials(credentials).unwrap();
    for now in [0u64, 1000, 4599, 4600, 8199, 8200, u64::MAX - 1] {
        let token = service.get_token_at(&cred_id, now, format!("t{}", now)).unwrap();
        assert!(!token.is_expired_at(now));
    }
    let fresh = service.get_token(&cred_id).unwrap();
    assert!(!fresh.is_expired());
}
