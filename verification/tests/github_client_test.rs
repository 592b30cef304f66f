use ghrr::github_client::{
    backoff_notice, classify_error, classify_response, is_rate_limit_error, list_failure,
    organizations_or_none, paginate_failure, profile_failure, rate_limit_wait,
    repository_resolution_message, resolve_failure, is_rate_limit_response, listing_route, organizations_route,
    pause_seconds, plan_rate_limit_pause, rate_limit_pause, reset_notice, ListParams, RepoData, SimpleUser, UserInteraction,
    RATE_LIMIT_BACKOFF,
};
use ghrr::errors::GhrrError;

#[test]
fn test_simple_user_construction() {
    let user = SimpleUser { login: "octocat".to_string() };
    assert_eq!(user.login, "octocat");
}

#[test]
fn test_simple_user_clone() {
    let user = SimpleUser { login: "testuser".to_string() };
    let cloned = user.clone();
    assert_eq!(cloned.login, "testuser");
}

#[test]
fn test_simple_user_debug_format() {
    let user = SimpleUser { login: "debug_user".to_string() };
    let debug_str = format!("{:?}", user);
    assert!(debug_str.contains("debug_user"));
}

#[test]
fn test_repo_data_construction() {
    let data = RepoData {
        stargazers: vec![SimpleUser { login: "user1".to_string() }],
        stargazers_count: 100,
        subscribers: vec![SimpleUser { login: "user2".to_string() }],
        subscribers_count: 50,
        contributors: vec![SimpleUser { login: "user3".to_string() }],
    };
    assert_eq!(data.stargazers.len(), 1);
    assert_eq!(data.stargazers_count, 100);
    assert_eq!(data.subscribers.len(), 1);
    assert_eq!(data.subscribers_count, 50);
    assert_eq!(data.contributors.len(), 1);
}

#[test]
fn test_repo_data_empty() {
    let data = RepoData {
        stargazers: vec![],
        stargazers_count: 0,
        subscribers: vec![],
        subscribers_count: 0,
        contributors: vec![],
    };
    assert!(data.stargazers.is_empty());
    assert_eq!(data.stargazers_count, 0);
    assert!(data.subscribers.is_empty());
    assert_eq!(data.subscribers_count, 0);
    assert!(data.contributors.is_empty());
}

#[test]
fn repo_data_from_listings_reads_counts() {
    let data = RepoData::from_listings(vec![], Some(7), vec![], Some(-4), vec![]);
    assert_eq!(data.stargazers_count, 7);
    assert_eq!(data.subscribers_count, 0);
    let data = RepoData::from_listings(vec![], None, vec![], Some(12), vec![]);
    assert_eq!(data.stargazers_count, 0);
    assert_eq!(data.subscribers_count, 12);
    let data = RepoData::from_listings(vec![], Some(1), vec![], None, vec![]);
    assert_eq!(data.subscribers_count, 0);
}

#[test]
fn test_list_params_default() {
    let params = ListParams::default();
    assert_eq!(params.per_page, 100);
}

#[test]
fn github_client_test_rate_limit_backoff_constant() {
    assert_eq!(RATE_LIMIT_BACKOFF, 10);
}

#[test]
fn main_test_rate_limit_backoff_constant() {
    assert_eq!(RATE_LIMIT_BACKOFF, 10);
}

#[test]
fn test_rate_limit_403_with_rate_limit_message() {
    assert!(is_rate_limit_response(403, "API rate limit exceeded for user ID 12345."));
}

#[test]
fn test_rate_limit_403_with_exact_prefix() {
    assert!(is_rate_limit_response(403, "API rate limit exceeded"));
}

#[test]
fn test_rate_limit_403_with_non_rate_limit_message() {
    assert!(!is_rate_limit_response(403, "Resource not accessible by integration"));
}

#[test]
fn test_rate_limit_404_not_classified() {
    assert!(!is_rate_limit_response(404, "Not Found"));
}

#[test]
fn test_rate_limit_500_with_rate_limit_message() {
    assert!(!is_rate_limit_response(500, "API rate limit exceeded"));
}

#[test]
fn test_rate_limit_200_not_classified() {
    assert!(!is_rate_limit_response(200, "API rate limit exceeded"));
}

#[test]
fn test_rate_limit_403_empty_message() {
    assert!(!is_rate_limit_response(403, ""));
}

#[test]
fn test_rate_limit_403_partial_prefix_message() {
    assert!(!is_rate_limit_response(403, "api rate limit exceeded"));
    assert!(!is_rate_limit_response(403, "API Rate Limit Exceeded"));
}

#[test]
fn rate_limit_prefix_cut_short_is_not_rate_limit() {
    assert!(!is_rate_limit_response(403, "API rate limit exceede"));
}

#[test]
fn classify_response_separates_rate_limit_from_other_failures() {
    let e = classify_response(Some((403, "API rate limit exceeded now".to_string())), "d1".to_string());
    assert!(matches!(&e, GhrrError::RateLimit(m) if m == "d1"));
    let e = classify_response(Some((403, "Forbidden".to_string())), "d2".to_string());
    assert!(matches!(&e, GhrrError::Api(m) if m == "d2"));
    let e = classify_response(None, "d3".to_string());
    assert!(matches!(&e, GhrrError::Api(m) if m == "d3"));
}

#[test]
fn listing_routes() {
    assert_eq!(listing_route("o", "r", UserInteraction::Stargazer), "/repos/o/r/stargazers");
    assert_eq!(listing_route("o", "r", UserInteraction::Subscriber), "/repos/o/r/subscribers");
    assert_eq!(listing_route("o", "r", UserInteraction::Contributor), "/repos/o/r/contributors");
    assert_eq!(organizations_route("octocat"), "/users/octocat/orgs");
}

#[test]
fn interaction_labels() {
    assert_eq!(UserInteraction::Stargazer.as_str(), "stargazer");
    assert_eq!(UserInteraction::Subscriber.as_str(), "subscriber");
    assert_eq!(UserInteraction::Contributor.as_str(), "contributor");
}

#[test]
fn test_rate_limit_sleep_calculation_future_timestamp() {
    // Reset 60 s after a whole second: 60 + 3.
    assert_eq!(pause_seconds(1_000_060, 1_000_000, 0), 63);
    // A fraction of a second already elapsed rounds the span down.
    assert_eq!(pause_seconds(1_000_060, 1_000_000, 500_000_000), 62);
}

#[test]
fn test_rate_limit_sleep_calculation_past_timestamp() {
    assert_eq!(pause_seconds(1_000_000 - 30, 1_000_000, 250_000_000), 0);
}

#[test]
fn test_rate_limit_sleep_calculation_exact_now() {
    assert_eq!(pause_seconds(1_000_000, 1_000_000, 0), 3);
    // A span shorter than a second rounds toward zero.
    assert_eq!(pause_seconds(1_000_000, 1_000_000, 999_999_999), 3);
    assert_eq!(pause_seconds(1_000_000 - 2, 1_000_000, 100), 1);
}

#[test]
fn rate_limit_notices() {
    assert_eq!(
        reset_notice("09/21/2020, 10:00:00"),
        "Rate limited. sleeping until \"09/21/2020, 10:00:00\" due to rate limit..."
    );
    assert_eq!(backoff_notice(), "Rate limited. sleeping for 10 seconds due to rate limit...");
}

#[test]
fn rate_limit_pause_plans() {
    let p = plan_rate_limit_pause(1_000_060, 1_000_000, 0, Some("A".to_string()), Some("B".to_string()));
    assert_eq!(p.seconds, 63);
    assert_eq!(p.notice, "Rate limited. sleeping until \"A\" due to rate limit...");
    let p = plan_rate_limit_pause(i64::MAX, 1_000_000, 0, None, Some("B".to_string()));
    assert_eq!(p.seconds, 3);
    assert_eq!(p.notice, "Rate limited. sleeping until \"B\" due to rate limit...");
}

#[test]
fn rate_limit_pause_renders_reset_time_in_utc() {
    // 2020-09-21T10:00:00Z, long past: no wait.
    let p = rate_limit_pause(1_600_682_400);
    assert_eq!(p.seconds, 0);
    assert_eq!(p.notice, "Rate limited. sleeping until \"09/21/2020, 10:00:00\" due to rate limit...");
}

fn transport_error() -> octocrab::Error {
    octocrab::Error::Other {
        source: Box::new(std::io::Error::new(std::io::ErrorKind::Other, "connection reset")),
        backtrace: std::backtrace::Backtrace::disabled(),
    }
}

#[test]
fn failure_messages_name_what_failed() {
    let description = transport_error().to_string();
    let e = resolve_failure("o", "r", &transport_error());
    assert!(matches!(&e, GhrrError::Repository(m) if *m == format!("Failed to resolve o/r: {}", description)));
    let e = list_failure(UserInteraction::Subscriber, &transport_error());
    assert!(matches!(&e, GhrrError::Api(m) if *m == format!("Failed to list subscribers: {}", description)));
    let e = paginate_failure(UserInteraction::Contributor, &transport_error());
    assert!(matches!(&e, GhrrError::Api(m) if *m == format!("Failed to paginate contributors: {}", description)));
    let e = profile_failure("octocat", &transport_error());
    assert!(matches!(&e, GhrrError::Api(m) if *m == format!("Failed to get profile for octocat: {}", description)));
}

#[test]
fn transport_failures_are_not_rate_limits() {
    assert!(!is_rate_limit_error(&transport_error()));
    let description = transport_error().to_string();
    let e = classify_error(transport_error());
    assert!(matches!(&e, GhrrError::Api(m) if *m == description));
    let e: GhrrError = transport_error().into();
    assert!(matches!(&e, GhrrError::Api(m) if *m == description));
}

#[test]
fn failure_builders_report_transport_errors_by_purpose() {
    assert!(matches!(resolve_failure("o", "r", &transport_error()), GhrrError::Repository(_)));
    assert!(matches!(list_failure(UserInteraction::Stargazer, &transport_error()), GhrrError::Api(_)));
    let description = transport_error().to_string();
    assert_eq!(
        repository_resolution_message("o", "r", &transport_error()),
        format!("Failed to resolve repository o/r: {}", description)
    );
}

#[test]
fn organizations_fall_back_to_none() {
    assert_eq!(organizations_or_none(Some(vec!["a".to_string(), "b".to_string()])), vec!["a", "b"]);
    assert!(organizations_or_none(None).is_empty());
}

#[test]
fn unreadable_rate_limit_falls_back_to_backoff() {
    let p = rate_limit_wait(None);
    assert_eq!(p.seconds, RATE_LIMIT_BACKOFF);
    assert_eq!(p.notice, "Rate limited. sleeping for 10 seconds due to rate limit...");
    let p = rate_limit_wait(Some(1_600_682_400));
    assert_eq!(p.seconds, 0);
    assert_eq!(p.notice, "Rate limited. sleeping until \"09/21/2020, 10:00:00\" due to rate limit...");
}
