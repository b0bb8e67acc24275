use web_be::avatar::{
    avatar_object_key, avatar_public_url, check_avatar_upload, extension_for, pixel_limit_ok,
    MAX_AVATAR_SIZE,
};
use web_be::config::{Config, ConfigError, R2Config};
use web_be::cookies::{create_auth_cookies, remove_auth_cookies};
use web_be::cursor::{decode_cursor, encode_cursor};
use web_be::error::{AppError, AuthError};
use web_be::friends::{
    accept_friend_decision, effective_limit, paginate_friends, remove_friend_decision,
    request_friend_decision, FriendEntry, FriendshipModel,
};

fn r2() -> R2Config {
    R2Config {
        account_id: "acct".to_string(),
        access_key_id: "key".to_string(),
        secret_access_key: "secret".to_string(),
        bucket_name: "bucket".to_string(),
        public_url: "https://cdn.example.com".to_string(),
    }
}

#[test]
fn test_config_rejects_wildcard_origin() {
    let r = Config::new(
        "postgres://db".to_string(),
        "jwt".to_string(),
        vec!["http://localhost:3000".to_string(), "*".to_string()],
        r2(),
    );
    assert!(matches!(r, Err(ConfigError::InvalidConfig(_))));
}

#[test]
fn test_config_accepts_explicit_origins() {
    let c = Config::new(
        "postgres://db".to_string(),
        "jwt".to_string(),
        vec!["http://localhost:3000".to_string()],
        r2(),
    )
    .unwrap();
    assert_eq!(c.cors_origins.len(), 1);
    assert_eq!(c.jwt_secret, "jwt");
}

#[test]
fn test_config_error_messages() {
    let missing = ConfigError::EnvVarMissing("DATABASE_URL".to_string());
    assert_eq!(missing.message(), "Environment variable DATABASE_URL must be set");
    let invalid = ConfigError::InvalidConfig("bad".to_string());
    assert_eq!(invalid.message(), "Invalid configuration: bad");
}

#[test]
fn test_auth_error_status_codes() {
    assert_eq!(AuthError::InvalidEmail.status_code(), 400);
    assert_eq!(AuthError::WeakPassword("m".to_string()).status_code(), 400);
    assert_eq!(AuthError::EmailAlreadyExists.status_code(), 409);
    assert_eq!(AuthError::InvalidCredentials.status_code(), 401);
    assert_eq!(AuthError::InvalidTokenType.status_code(), 401);
    assert_eq!(AuthError::DatabaseError("m".to_string()).status_code(), 500);
    assert_eq!(AuthError::HashingError("m".to_string()).status_code(), 500);
    assert_eq!(AuthError::TokenCreationError("m".to_string()).status_code(), 500);
}

#[test]
fn test_auth_error_messages_never_leak_internals() {
    assert_eq!(
        AuthError::DatabaseError("connection string".to_string()).client_message(),
        "Internal server error"
    );
    assert_eq!(
        AuthError::HashingError("argon2 params".to_string()).client_message(),
        "Internal server error"
    );
    assert_eq!(AuthError::InvalidCredentials.client_message(), "Invalid email or password");
    assert!(!AuthError::DatabaseError("secret detail".to_string()).is_client_error());
    assert!(AuthError::EmailAlreadyExists.is_client_error());
}

#[test]
fn test_auth_cookies_attributes() {
    let cookies = create_auth_cookies("acc".to_string(), "ref".to_string(), true);
    assert_eq!(cookies.len(), 2);
    assert_eq!(cookies[0].name, "access_token");
    assert_eq!(cookies[0].value, "acc");
    assert!(cookies[0].http_only && cookies[0].secure && cookies[0].same_site_strict);
    assert_eq!(cookies[0].path, "/");
    assert_eq!(cookies[0].max_age_seconds, Some(3600));
    assert_eq!(cookies[1].name, "refresh_token");
    assert_eq!(cookies[1].value, "ref");
    assert_eq!(cookies[1].max_age_seconds, Some(7 * 24 * 3600));
}

#[test]
fn test_auth_cookies_session_scoped_without_remember_me() {
    let cookies = create_auth_cookies("acc".to_string(), "ref".to_string(), false);
    assert_eq!(cookies[1].max_age_seconds, None);
}

#[test]
fn test_remove_auth_cookies_expire_immediately() {
    let cookies = remove_auth_cookies();
    assert_eq!(cookies.len(), 2);
    for c in &cookies {
        assert_eq!(c.value, "");
        assert_eq!(c.max_age_seconds, Some(0));
        assert!(c.http_only && c.secure && c.same_site_strict);
    }
}

#[test]
fn test_cursor_round_trip() {
    let uuid = "0b879fb8-73dc-4eae-b8d8-6e40ebbb5e0f";
    let cursor = encode_cursor("Alice", uuid);
    // the cursor is real standard base64 of "name|id"
    let decoded = base64::Engine::decode(&base64::engine::general_purpose::STANDARD, &cursor)
        .expect("valid base64");
    assert_eq!(String::from_utf8(decoded).unwrap(), format!("Alice|{}", uuid));
    let (name, id) = decode_cursor(&cursor).unwrap();
    assert_eq!(name, "Alice");
    assert_eq!(id, uuid);
}

#[test]
fn test_cursor_rejects_malformed_input() {
    assert_eq!(
        decode_cursor("!!!not-base64!!!").unwrap_err(),
        AppError::BadRequest("Invalid cursor format".to_string())
    );
    let no_pipe = base64::Engine::encode(&base64::engine::general_purpose::STANDARD, "AliceOnly");
    assert_eq!(
        decode_cursor(&no_pipe).unwrap_err(),
        AppError::BadRequest("Invalid cursor structure".to_string())
    );
    let two_pipes =
        base64::Engine::encode(&base64::engine::general_purpose::STANDARD, "a|b|c");
    assert_eq!(
        decode_cursor(&two_pipes).unwrap_err(),
        AppError::BadRequest("Invalid cursor structure".to_string())
    );
    let bad_uuid =
        base64::Engine::encode(&base64::engine::general_purpose::STANDARD, "Alice|not-a-uuid");
    assert_eq!(
        decode_cursor(&bad_uuid).unwrap_err(),
        AppError::BadRequest("Invalid user ID in cursor".to_string())
    );
}

fn edge(user: &str, friend: &str, status: &str) -> FriendshipModel {
    FriendshipModel {
        id: "edge-1".to_string(),
        user_id: user.to_string(),
        friend_id: friend.to_string(),
        status: status.to_string(),
        created_at: 0,
        updated_at: 0,
    }
}

#[test]
fn test_friend_request_decisions() {
    assert_eq!(
        request_friend_decision("u1", "u1", None).unwrap_err(),
        AppError::BadRequest("Cannot add yourself".to_string())
    );
    let existing = edge("u1", "u2", "pending");
    assert_eq!(
        request_friend_decision("u1", "u2", Some(&existing)).unwrap_err(),
        AppError::BadRequest("Friendship or request already exists".to_string())
    );
    assert!(request_friend_decision("u1", "u2", None).is_ok());
}

#[test]
fn test_friend_accept_decisions() {
    assert_eq!(
        accept_friend_decision("u2", None).unwrap_err(),
        AppError::BadRequest("Friend request not found".to_string())
    );
    let accepted = edge("u1", "u2", "accepted");
    assert_eq!(
        accept_friend_decision("u2", Some(&accepted)).unwrap_err(),
        AppError::BadRequest("Already friends".to_string())
    );
    let pending = edge("u1", "u2", "pending");
    assert_eq!(
        accept_friend_decision("u1", Some(&pending)).unwrap_err(),
        AppError::BadRequest("You can only accept requests sent to you".to_string())
    );
    assert_eq!(accept_friend_decision("u2", Some(&pending)).unwrap(), "edge-1");
}

#[test]
fn test_friend_remove_decision() {
    assert_eq!(
        remove_friend_decision(0).unwrap_err(),
        AppError::BadRequest("Friendship not found".to_string())
    );
    assert!(remove_friend_decision(1).is_ok());
}

#[test]
fn test_effective_limit() {
    assert_eq!(effective_limit(None), 20);
    assert_eq!(effective_limit(Some(5)), 5);
    assert_eq!(effective_limit(Some(500)), 100);
}

fn entry(n: usize) -> FriendEntry {
    FriendEntry {
        user_id: format!("0b879fb8-73dc-4eae-b8d8-6e40ebbb5e0{}", n),
        full_name: Some(format!("Friend {}", n)),
        avatar_url: None,
        status: "accepted".to_string(),
        created_at: n as i64,
    }
}

#[test]
fn test_paginate_friends_with_more() {
    let friends = vec![entry(1), entry(2), entry(3)];
    let page = paginate_friends(&friends, 2);
    assert!(page.has_more);
    assert_eq!(page.data.len(), 2);
    assert_eq!(page.data[0].user_id, friends[0].user_id);
    let cursor = page.next_cursor.expect("a further page exists");
    let (name, id) = decode_cursor(&cursor).unwrap();
    assert_eq!(name, "Friend 2");
    assert_eq!(id, page.data[1].user_id);
}

#[test]
fn test_paginate_friends_last_page() {
    let friends = vec![entry(1), entry(2)];
    let page = paginate_friends(&friends, 2);
    assert!(!page.has_more);
    assert_eq!(page.data.len(), 2);
    assert!(page.next_cursor.is_none());
}

#[test]
fn test_avatar_upload_checks() {
    assert!(check_avatar_upload("image/png", 1024).is_ok());
    assert_eq!(
        check_avatar_upload("text/html", 1024).unwrap_err(),
        AppError::BadRequest("Invalid file type. Allowed: JPEG, PNG, GIF, WebP".to_string())
    );
    assert_eq!(
        check_avatar_upload("image/png", MAX_AVATAR_SIZE + 1).unwrap_err(),
        AppError::BadRequest("File too large. Maximum size is 5MB".to_string())
    );
    assert_eq!(MAX_AVATAR_SIZE, 5 * 1024 * 1024);
}

#[test]
fn test_avatar_extension_mapping() {
    assert_eq!(extension_for("image/jpeg"), "jpg");
    assert_eq!(extension_for("image/jpg"), "jpg");
    assert_eq!(extension_for("image/png"), "png");
    assert_eq!(extension_for("image/gif"), "gif");
    assert_eq!(extension_for("image/webp"), "webp");
    assert_eq!(extension_for("application/json"), "bin");
}

#[test]
fn test_avatar_pixel_limit() {
    assert!(pixel_limit_ok(5000, 5000));
    assert!(!pixel_limit_ok(5001, 5000));
    assert!(pixel_limit_ok(1, 1));
}

#[test]
fn test_avatar_key_and_url() {
    let key = avatar_object_key("user-1", "file-2", "png");
    assert_eq!(key, "avatars/user-1/file-2.png");
    assert_eq!(
        avatar_public_url("https://cdn.example.com//", &key),
        "https://cdn.example.com/avatars/user-1/file-2.png"
    );
    assert_eq!(
        avatar_public_url("https://cdn.example.com", &key),
        "https://cdn.example.com/avatars/user-1/file-2.png"
    );
}
