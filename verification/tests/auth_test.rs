use ghrr::auth::AuthCredentials;

fn validate(user: Option<&str>, token: Option<&str>) -> Result<AuthCredentials, ghrr::errors::GhrrError> {
    AuthCredentials::from_env_values(user.map(|s| s.to_string()), token.map(|s| s.to_string()))
}

#[test]
fn test_from_env_success() {
    let creds = validate(Some("testuser"), Some("testtoken")).unwrap();
    assert_eq!(creds.username, "testuser");
    assert_eq!(creds.token, "testtoken");
}

#[test]
fn test_from_env_preserves_values_with_special_chars() {
    let creds = validate(Some("user-with-dashes"), Some("ghp_abc123XYZ!@#")).unwrap();
    assert_eq!(creds.username, "user-with-dashes");
    assert_eq!(creds.token, "ghp_abc123XYZ!@#");
}

#[test]
fn test_from_env_preserves_whitespace_values() {
    let creds = validate(Some(" "), Some("token")).unwrap();
    assert_eq!(creds.username, " ");
    assert_eq!(creds.token, "token");
}

#[test]
fn test_from_env_missing_user() {
    let result = validate(None, Some("testtoken"));
    assert!(result.is_err());
    assert_eq!(result.unwrap_err().to_string(), "Please add GITHUB_USER environment variable");
}

#[test]
fn test_from_env_missing_token() {
    let result = validate(Some("testuser"), None);
    assert!(result.is_err());
    assert_eq!(result.unwrap_err().to_string(), "Please add GITHUB_TOKEN environment variable");
}

#[test]
fn test_from_env_missing_both() {
    let result = validate(None, None);
    assert!(result.is_err());
    assert!(result.unwrap_err().to_string().contains("GITHUB_USER"));
}

#[test]
fn test_from_env_empty_user() {
    let result = validate(Some(""), Some("testtoken"));
    assert!(result.is_err());
    assert_eq!(result.unwrap_err().to_string(), "Please add GITHUB_USER environment variable");
}

#[test]
fn test_from_env_empty_token() {
    let result = validate(Some("testuser"), Some(""));
    assert!(result.is_err());
    assert_eq!(result.unwrap_err().to_string(), "Please add GITHUB_TOKEN environment variable");
}

#[test]
fn test_from_env_both_empty() {
    let result = validate(Some(""), Some(""));
    assert!(result.is_err());
    assert!(result.unwrap_err().to_string().contains("GITHUB_USER"));
}

#[test]
fn test_error_is_ghrr_auth_variant() {
    let err = validate(None, Some("token")).unwrap_err();
    assert!(err.is_auth());
    assert!(!err.is_rate_limit());
}

#[test]
fn test_credentials_debug_trait() {
    let creds = validate(Some("user"), Some("secret")).unwrap();
    let debug_str = format!("{:?}", creds);
    assert!(debug_str.contains("AuthCredentials"));
    assert!(debug_str.contains("user"));
}

#[test]
fn test_credentials_clone_trait() {
    let creds = validate(Some("user"), Some("token")).unwrap();
    let cloned = creds.clone();
    assert_eq!(creds.username, cloned.username);
    assert_eq!(creds.token, cloned.token);
}
