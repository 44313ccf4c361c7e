use service_vitals::health::result::{HealthResult, HealthStatus};

#[test]
fn test_health_result_creation() {
    let result = HealthResult::new(
        "Test Service".to_string(),
        "https://example.com".to_string(),
        HealthStatus::Up,
        "GET".to_string(),
    );

    assert_eq!(result.service_name, "Test Service");
    assert_eq!(result.service_url, "https://example.com");
    assert_eq!(result.status, HealthStatus::Up);
    assert_eq!(result.method, "GET");
    assert_eq!(result.consecutive_failures, 0);
    assert!(result.error_message.is_none());
}

#[test]
fn test_health_result_builder_pattern() {
    let result = HealthResult::new(
        "Test Service".to_string(),
        "https://example.com".to_string(),
        HealthStatus::Down,
        "GET".to_string(),
    )
    .with_status_code(500)
    .with_response_time(1500)
    .with_error("Internal Server Error".to_string())
    .with_consecutive_failures(3)
    .with_response_size(1024)
    .with_metadata("region".to_string(), "us-east-1".to_string());

    assert_eq!(result.status_code, Some(500));
    assert_eq!(result.response_time_ms(), 1500);
    assert_eq!(result.error_message, Some("Internal Server Error".to_string()));
    assert_eq!(result.consecutive_failures, 3);
    assert_eq!(result.response_size, Some(1024));
    assert_eq!(result.metadata.get("region"), Some(&"us-east-1".to_string()));
}

#[test]
fn test_health_result_should_notify() {
    let result_success = HealthResult::new(
        "Test".to_string(),
        "https://example.com".to_string(),
        HealthStatus::Up,
        "GET".to_string(),
    );
    assert!(!result_success.should_notify(1));

    let result_failure = HealthResult::new(
        "Test".to_string(),
        "https://example.com".to_string(),
        HealthStatus::Down,
        "GET".to_string(),
    )
    .with_consecutive_failures(3);

    assert!(!result_failure.should_notify(5));
    assert!(result_failure.should_notify(3));
    assert!(result_failure.should_notify(1));
}

#[test]
fn test_health_result_fresh_identity() {
    let a = HealthResult::new("a".to_string(), "u".to_string(), HealthStatus::Up, "GET".to_string());
    let b = HealthResult::new("a".to_string(), "u".to_string(), HealthStatus::Up, "GET".to_string());
    assert_ne!(a.id, b.id);
    assert!(a.timestamp > 1_600_000_000_000);
    assert!(b.timestamp >= a.timestamp);
    assert_eq!(a.response_time, 0);
    assert!(a.metadata.is_empty());
}

#[test]
fn test_health_result_at_and_clone() {
    let r = HealthResult::at(
        7,
        1234,
        "svc".to_string(),
        "http://h".to_string(),
        HealthStatus::Degraded,
        "POST".to_string(),
    )
    .with_metadata("k".to_string(), "v1".to_string())
    .with_metadata("k".to_string(), "v2".to_string());
    assert_eq!(r.id, 7);
    assert_eq!(r.timestamp, 1234);
    assert_eq!(r.metadata.len(), 1);
    assert_eq!(r.metadata.get("k"), Some(&"v2".to_string()));
    let c = r.clone();
    assert_eq!(c.id, 7);
    assert_eq!(c.status, HealthStatus::Degraded);
    assert_eq!(c.metadata.get("k"), Some(&"v2".to_string()));
    assert!(c.should_notify(0));
}
