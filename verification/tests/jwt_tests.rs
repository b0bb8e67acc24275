use web_be::token::{
    create_jwt, create_refresh_token, decode_jwt, decode_jwt_with_type, TokenError, TokenType,
};

#[test]
fn test_create_jwt_happy_path() {
    let token_result = create_jwt("user_123", "test_secret");
    assert!(token_result.is_ok());
    let token = token_result.unwrap();
    assert!(!token.is_empty());

    let parts: Vec<&str> = token.split('.').collect();
    assert_eq!(parts.len(), 3);
}

#[test]
fn test_decode_jwt_happy_path() {
    let token = create_jwt("user_123", "test_secret").expect("Failed to create token");
    let claims_result = decode_jwt(&token, "test_secret");

    assert!(claims_result.is_ok());
    let claims = claims_result.unwrap();
    assert_eq!(claims.sub, "user_123");

    // Verify expiration is in the future
    let now = chrono::Utc::now().timestamp() as u64;
    assert!(claims.exp > now);
}

#[test]
fn test_create_refresh_token_happy_path() {
    let token_result = create_refresh_token("user_123", "test_secret");
    assert!(token_result.is_ok());
    let token = token_result.unwrap();
    assert!(!token.is_empty());
}

#[test]
fn test_decode_jwt_invalid_token() {
    let invalid_token = "invalid.token.string";
    let result = decode_jwt(invalid_token, "test_secret");
    assert!(matches!(result, Err(TokenError::Malformed)));
}

#[test]
fn test_decode_jwt_wrong_secret() {
    let token = create_jwt("user_123", "test_secret").expect("Failed to create token");
    let wrong_secret = "wrong_secret";
    let result = decode_jwt(&token, wrong_secret);
    assert!(matches!(result, Err(TokenError::BadSignature)));
}

#[test]
fn test_access_token_has_correct_type() {
    let token = create_jwt("user_123", "test_secret").expect("Failed to create token");
    let claims = decode_jwt(&token, "test_secret").expect("Failed to decode token");
    assert_eq!(claims.token_type, "access");
}

#[test]
fn test_refresh_token_has_correct_type() {
    let token = create_refresh_token("user_123", "test_secret").expect("Failed to create token");
    let claims = decode_jwt(&token, "test_secret").expect("Failed to decode token");
    assert_eq!(claims.token_type, "refresh");
}

#[test]
fn test_decode_access_token_with_correct_type() {
    let token = create_jwt("user_123", "test_secret").expect("Failed to create token");
    let result = decode_jwt_with_type(&token, "test_secret", TokenType::Access);
    assert!(result.is_ok());
    let claims = result.unwrap();
    assert_eq!(claims.sub, "user_123");
}

#[test]
fn test_decode_refresh_token_with_correct_type() {
    let token = create_refresh_token("user_123", "test_secret").expect("Failed to create token");
    let result = decode_jwt_with_type(&token, "test_secret", TokenType::Refresh);
    assert!(result.is_ok());
    let claims = result.unwrap();
    assert_eq!(claims.sub, "user_123");
}

#[test]
fn test_token_substitution_access_as_refresh_fails() {
    let access_token = create_jwt("user_123", "test_secret").expect("Failed to create token");
    let result = decode_jwt_with_type(&access_token, "test_secret", TokenType::Refresh);
    assert!(matches!(result, Err(TokenError::InvalidTokenType)));
}

#[test]
fn test_token_substitution_refresh_as_access_fails() {
    let refresh_token =
        create_refresh_token("user_123", "test_secret").expect("Failed to create token");
    let result = decode_jwt_with_type(&refresh_token, "test_secret", TokenType::Access);
    assert!(matches!(result, Err(TokenError::InvalidTokenType)));
}

#[test]
fn test_token_type_as_str() {
    assert_eq!(TokenType::Access.as_str(), "access");
    assert_eq!(TokenType::Refresh.as_str(), "refresh");
}
