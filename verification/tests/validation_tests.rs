use web_be::policy::{
    is_valid_email, validate_bio, validate_full_name, validate_password_strength,
};

#[test]
fn test_password_too_short() {
    let result = validate_password_strength("Short1!");
    assert!(result.is_err());
    assert_eq!(result.unwrap_err().code(), "password_too_short");
}

#[test]
fn test_password_missing_uppercase() {
    let result = validate_password_strength("weakpassword1!");
    assert!(result.is_err());
    assert_eq!(result.unwrap_err().code(), "weak_password");
}

#[test]
fn test_password_missing_lowercase() {
    let result = validate_password_strength("WEAKPASSWORD1!");
    assert!(result.is_err());
    assert_eq!(result.unwrap_err().code(), "weak_password");
}

#[test]
fn test_password_missing_digit() {
    let result = validate_password_strength("WeakPassword!");
    assert!(result.is_err());
    assert_eq!(result.unwrap_err().code(), "weak_password");
}

#[test]
fn test_password_missing_special() {
    let result = validate_password_strength("WeakPassword1");
    assert!(result.is_err());
    assert_eq!(result.unwrap_err().code(), "weak_password");
}

#[test]
fn test_valid_password() {
    let result = validate_password_strength("StrongPassword1!");
    assert!(result.is_ok());
}

#[test]
fn test_example_strong_password_accepted() {
    assert!(web_be::policy::validate_password("StrongP@ss1").is_ok());
    assert!(validate_password_strength("StrongP@ss1").is_ok());
}

#[test]
fn test_email_shapes() {
    assert!(is_valid_email("user@example.com"));
    assert!(!is_valid_email("not-an-email"));
    assert!(!is_valid_email(""));
}

#[test]
fn test_full_name_rules() {
    assert!(validate_full_name("Ada Lovelace").is_ok());
    assert_eq!(
        validate_full_name("Agent 007").unwrap_err(),
        "Full name must not contain numbers"
    );
    let long = "x".repeat(256);
    assert_eq!(
        validate_full_name(&long).unwrap_err(),
        "Full name must not exceed 255 characters"
    );
}

#[test]
fn test_bio_rules() {
    assert!(validate_bio("Hello there.").is_ok());
    let long = "x".repeat(256);
    assert_eq!(validate_bio(&long).unwrap_err(), "Bio must not exceed 255 characters");
}

#[test]
fn test_register_request_validation() {
    let good = web_be::dtos::RegisterRequest {
        email: "user@example.com".to_string(),
        password: "StrongP@ss1".to_string(),
    };
    assert!(good.validate().is_ok());
    let bad_email = web_be::dtos::RegisterRequest {
        email: "nope".to_string(),
        password: "StrongP@ss1".to_string(),
    };
    assert_eq!(bad_email.validate().unwrap_err(), "Invalid email format");
    let weak = web_be::dtos::RegisterRequest {
        email: "user@example.com".to_string(),
        password: "weak".to_string(),
    };
    assert_eq!(weak.validate().unwrap_err(), "password_too_short");
}

#[test]
fn test_login_request_validation() {
    let good = web_be::dtos::LoginRequest {
        email: "user@example.com".to_string(),
        password: "anything".to_string(),
        remember_me: false,
    };
    assert!(good.validate().is_ok());
    let empty = web_be::dtos::LoginRequest {
        email: "user@example.com".to_string(),
        password: "".to_string(),
        remember_me: false,
    };
    assert_eq!(empty.validate().unwrap_err(), "Password is required");
}
