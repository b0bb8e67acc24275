use web_be::error::AuthError;
use web_be::gate::{authorize, GateError};
use web_be::issuer::{
    invalidate_refresh_token, login_user, refresh_access_token, register_user,
};
use web_be::store::AuthStore;

fn sha256_hex(s: &str) -> String {
    let mut hasher: sha2::Sha256 = sha2::Digest::new();
    sha2::Digest::update(&mut hasher, s.as_bytes());
    format!("{:x}", sha2::Digest::finalize(hasher))
}

#[test]
fn test_register_issues_tokens_and_account() {
    let mut store = AuthStore::new();
    let (access, refresh, user) =
        register_user(&mut store, "alice@example.com", "StrongP@ss1", "secret").unwrap();
    assert!(!access.is_empty());
    assert!(!refresh.is_empty());
    assert_eq!(user.email, "alice@example.com");
    assert!(user.is_active);
    assert!(!user.is_deleted);
    // the stored hash is never the raw password
    assert_ne!(user.password_hash, "StrongP@ss1");
}

#[test]
fn test_register_rejects_invalid_email() {
    let mut store = AuthStore::new();
    let r = register_user(&mut store, "not-an-email", "StrongP@ss1", "secret");
    assert!(matches!(r, Err(AuthError::InvalidEmail)));
}

#[test]
fn test_register_rejects_weak_password() {
    let mut store = AuthStore::new();
    let r = register_user(&mut store, "alice@example.com", "weak", "secret");
    assert!(matches!(r, Err(AuthError::WeakPassword(_))));
}

#[test]
fn test_register_same_email_twice() {
    let mut store = AuthStore::new();
    register_user(&mut store, "alice@example.com", "StrongP@ss1", "secret").unwrap();
    let second = register_user(&mut store, "alice@example.com", "StrongP@ss1", "secret");
    assert!(matches!(second, Err(AuthError::EmailAlreadyExists)));
}

#[test]
fn test_login_happy_path() {
    let mut store = AuthStore::new();
    let (_, _, registered) =
        register_user(&mut store, "alice@example.com", "StrongP@ss1", "secret").unwrap();
    let (access, refresh, user) =
        login_user(&mut store, "alice@example.com", "StrongP@ss1", "secret").unwrap();
    assert_eq!(user.id, registered.id);
    assert!(!access.is_empty());
    assert!(!refresh.is_empty());
}

#[test]
fn test_login_uniform_invalid_credentials() {
    let mut store = AuthStore::new();
    register_user(&mut store, "alice@example.com", "StrongP@ss1", "secret").unwrap();
    let wrong_password = login_user(&mut store, "alice@example.com", "WrongP@ss1", "secret");
    let unknown_email = login_user(&mut store, "nobody@example.com", "StrongP@ss1", "secret");
    // both failures are the identical outcome: no information leaks
    assert!(matches!(wrong_password, Err(AuthError::InvalidCredentials)));
    assert!(matches!(unknown_email, Err(AuthError::InvalidCredentials)));
    assert_eq!(wrong_password.unwrap_err(), unknown_email.unwrap_err());
}

#[test]
fn test_refresh_rotates_tokens() {
    let mut store = AuthStore::new();
    let (_, refresh, user) =
        register_user(&mut store, "alice@example.com", "StrongP@ss1", "secret").unwrap();
    let (new_access, new_refresh, refreshed_user) =
        refresh_access_token(&mut store, &refresh, "secret").unwrap();
    assert_eq!(refreshed_user.id, user.id);
    assert!(!new_access.is_empty());
    assert_ne!(new_refresh, refresh);
}

#[test]
fn test_refresh_single_use() {
    let mut store = AuthStore::new();
    let (_, refresh, _) =
        register_user(&mut store, "alice@example.com", "StrongP@ss1", "secret").unwrap();
    let first = refresh_access_token(&mut store, &refresh, "secret");
    assert!(first.is_ok());
    let second = refresh_access_token(&mut store, &refresh, "secret");
    assert!(matches!(second, Err(AuthError::InvalidCredentials)));
}

#[test]
fn test_refresh_rejects_access_token() {
    let mut store = AuthStore::new();
    let (access, _, _) =
        register_user(&mut store, "alice@example.com", "StrongP@ss1", "secret").unwrap();
    let r = refresh_access_token(&mut store, &access, "secret");
    assert!(matches!(r, Err(AuthError::InvalidTokenType)));
}

#[test]
fn test_refresh_rejects_garbage() {
    let mut store = AuthStore::new();
    register_user(&mut store, "alice@example.com", "StrongP@ss1", "secret").unwrap();
    let r = refresh_access_token(&mut store, "not.a.token", "secret");
    assert!(matches!(r, Err(AuthError::InvalidCredentials)));
}

#[test]
fn test_ledger_consume_single_winner() {
    let mut store = AuthStore::new();
    let (_, refresh, _) =
        register_user(&mut store, "alice@example.com", "StrongP@ss1", "secret").unwrap();
    let digest = sha256_hex(&refresh);
    // the record is stored under the digest of the raw token, never the raw value
    let record = store.find_token_by_hash(&digest).expect("record stored by digest");
    assert!(!record.used);
    // two racing consumers: the compare-and-set admits exactly one
    assert!(store.set_token_used(&digest));
    assert!(!store.set_token_used(&digest));
}

#[test]
fn test_logout_idempotent() {
    let mut store = AuthStore::new();
    let (_, refresh, _) =
        register_user(&mut store, "alice@example.com", "StrongP@ss1", "secret").unwrap();
    assert!(invalidate_refresh_token(&mut store, &refresh).is_ok());
    // a second logout with the same token never errors
    assert!(invalidate_refresh_token(&mut store, &refresh).is_ok());
    // and the consumed token can no longer rotate
    let r = refresh_access_token(&mut store, &refresh, "secret");
    assert!(matches!(r, Err(AuthError::InvalidCredentials)));
}

#[test]
fn test_logout_unknown_token_is_ok() {
    let mut store = AuthStore::new();
    assert!(invalidate_refresh_token(&mut store, "never-issued").is_ok());
}

#[test]
fn test_gate_admits_live_account() {
    let mut store = AuthStore::new();
    let (access, _, user) =
        register_user(&mut store, "alice@example.com", "StrongP@ss1", "secret").unwrap();
    let ident = authorize(&store, &access, "secret").unwrap();
    assert_eq!(ident.user_id, user.id);
    assert_eq!(ident.claims.sub, user.id);
}

#[test]
fn test_gate_rejects_soft_deleted_account() {
    let mut store = AuthStore::new();
    let (access, _, user) =
        register_user(&mut store, "alice@example.com", "StrongP@ss1", "secret").unwrap();
    // a valid, unexpired, correctly signed token...
    assert!(authorize(&store, &access, "secret").is_ok());
    // ...stops working the moment the account is soft-deleted
    assert!(store.set_account_deleted(&user.id));
    let r = authorize(&store, &access, "secret");
    assert!(matches!(r, Err(GateError::Unauthorized)));
}

#[test]
fn test_gate_rejects_refresh_token() {
    let mut store = AuthStore::new();
    let (_, refresh, _) =
        register_user(&mut store, "alice@example.com", "StrongP@ss1", "secret").unwrap();
    assert!(authorize(&store, &refresh, "secret").is_err());
}

#[test]
fn test_gate_rejects_wrong_secret() {
    let mut store = AuthStore::new();
    let (access, _, _) =
        register_user(&mut store, "alice@example.com", "StrongP@ss1", "secret").unwrap();
    assert!(authorize(&store, &access, "other-secret").is_err());
}

#[test]
fn test_delete_expired_tokens() {
    let mut store = AuthStore::new();
    register_user(&mut store, "alice@example.com", "StrongP@ss1", "secret").unwrap();
    register_user(&mut store, "bob@example.com", "StrongP@ss1", "secret").unwrap();
    // nothing has expired yet
    assert_eq!(store.delete_expired_tokens(0), 0);
    // far in the future, both records have expired
    assert_eq!(store.delete_expired_tokens(i64::MAX), 2);
    assert_eq!(store.delete_expired_tokens(i64::MAX), 0);
}
