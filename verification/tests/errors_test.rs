use ghrr::errors::GhrrError;

fn assert_send<T: Send>() {}

fn assert_sync<T: Sync>() {}

#[test]
fn test_auth_error_display() {
    let err = GhrrError::Auth("Please add GITHUB_USER environment variable".to_string());
    assert_eq!(err.to_string(), "Please add GITHUB_USER environment variable");
}

#[test]
fn test_auth_error_display_token() {
    let err = GhrrError::Auth("Please add GITHUB_TOKEN environment variable".to_string());
    assert_eq!(err.to_string(), "Please add GITHUB_TOKEN environment variable");
}

#[test]
fn test_api_error_display() {
    let err = GhrrError::Api("connection timeout".to_string());
    assert_eq!(err.to_string(), "GitHub API error: connection timeout");
}

#[test]
fn test_rate_limit_error_display() {
    let err = GhrrError::RateLimit("API rate limit exceeded".to_string());
    assert_eq!(err.to_string(), "Rate limit exceeded: API rate limit exceeded");
}

#[test]
fn test_csv_error_display() {
    let err = GhrrError::Csv("file not writable".to_string());
    assert_eq!(err.to_string(), "CSV error: file not writable");
}

#[test]
fn test_repository_error_display() {
    let err = GhrrError::Repository("not found".to_string());
    assert_eq!(err.to_string(), "Repository error: not found");
}

#[test]
fn test_is_rate_limit_true_for_rate_limit_variant() {
    let err = GhrrError::RateLimit("exceeded".to_string());
    assert!(err.is_rate_limit());
}

#[test]
fn test_is_rate_limit_false_for_api_variant() {
    let err = GhrrError::Api("other".to_string());
    assert!(!err.is_rate_limit());
}

#[test]
fn test_is_rate_limit_false_for_auth_variant() {
    let err = GhrrError::Auth("missing".to_string());
    assert!(!err.is_rate_limit());
}

#[test]
fn test_is_rate_limit_false_for_csv_variant() {
    let err = GhrrError::Csv("write error".to_string());
    assert!(!err.is_rate_limit());
}

#[test]
fn test_is_rate_limit_false_for_repository_variant() {
    let err = GhrrError::Repository("not found".to_string());
    assert!(!err.is_rate_limit());
}

#[test]
fn test_is_auth_true_for_auth_variant() {
    let err = GhrrError::Auth("missing".to_string());
    assert!(err.is_auth());
}

#[test]
fn test_is_auth_false_for_api_variant() {
    let err = GhrrError::Api("other".to_string());
    assert!(!err.is_auth());
}

#[test]
fn test_is_auth_false_for_rate_limit_variant() {
    let err = GhrrError::RateLimit("exceeded".to_string());
    assert!(!err.is_auth());
}

#[test]
fn test_is_auth_false_for_csv_variant() {
    let err = GhrrError::Csv("write error".to_string());
    assert!(!err.is_auth());
}

#[test]
fn test_is_auth_false_for_repository_variant() {
    let err = GhrrError::Repository("not found".to_string());
    assert!(!err.is_auth());
}

#[test]
fn test_from_io_error() {
    let io_err = std::io::Error::new(std::io::ErrorKind::NotFound, "file missing");
    let ghrr_err: GhrrError = io_err.into();
    match &ghrr_err {
        GhrrError::Csv(msg) => {
            assert!(msg.starts_with("I/O error:"));
            assert!(msg.contains("file missing"));
        }
        other => panic!("Expected Csv variant, got {:?}", other),
    }
}

#[test]
fn test_from_io_error_preserves_message() {
    let io_err = std::io::Error::new(std::io::ErrorKind::PermissionDenied, "access denied");
    let ghrr_err: GhrrError = io_err.into();
    assert_eq!(ghrr_err.to_string(), "CSV error: I/O error: access denied");
}

#[test]
fn test_from_csv_error() {
    let csv_err: csv::Error = csv::Error::from(std::io::Error::new(
        std::io::ErrorKind::InvalidData,
        "bad csv data",
    ));
    let ghrr_err: GhrrError = csv_err.into();
    match &ghrr_err {
        GhrrError::Csv(msg) => {
            assert!(msg.contains("bad csv data"));
        }
        other => panic!("Expected Csv variant, got {:?}", other),
    }
}

#[test]
fn test_debug_formatting() {
    let err = GhrrError::Auth("test debug".to_string());
    let debug_str = format!("{:?}", err);
    assert!(debug_str.contains("Auth"));
    assert!(debug_str.contains("test debug"));
}

#[test]
fn test_empty_message() {
    let err = GhrrError::Api(String::new());
    assert_eq!(err.to_string(), "GitHub API error: ");
}

#[test]
fn test_unicode_message() {
    let err = GhrrError::Auth("认证失败: 缺少令牌".to_string());
    assert_eq!(err.to_string(), "认证失败: 缺少令牌");
}

#[test]
fn test_long_message() {
    let long_msg = "x".repeat(10_000);
    let err = GhrrError::Repository(long_msg.clone());
    assert_eq!(err.to_string(), format!("Repository error: {}", long_msg));
}

#[test]
fn test_message_with_special_chars() {
    let err = GhrrError::Api("error: 'rate' \"limit\" <exceeded> & retry".to_string());
    assert_eq!(
        err.to_string(),
        "GitHub API error: error: 'rate' \"limit\" <exceeded> & retry"
    );
}

#[test]
fn from_io_description_prefixes_the_description() {
    let err = GhrrError::from_io_description("disk full");
    assert!(matches!(&err, GhrrError::Csv(m) if m == "I/O error: disk full"));
    assert_eq!(err.to_string(), "CSV error: I/O error: disk full");
}

#[test]
fn exactly_one_classification_holds_per_variant() {
    let all = vec![
        GhrrError::Auth("a".to_string()),
        GhrrError::Api("b".to_string()),
        GhrrError::RateLimit("c".to_string()),
        GhrrError::Csv("d".to_string()),
        GhrrError::Repository("e".to_string()),
    ];
    for e in &all {
        assert!(!(e.is_auth() && e.is_rate_limit()));
    }
}

#[test]
fn test_error_implements_send() {
    assert_send::<GhrrError>();
}

#[test]
fn test_error_implements_sync() {
    assert_sync::<GhrrError>();
}
