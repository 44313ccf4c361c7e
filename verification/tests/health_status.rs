use service_vitals::health::result::HealthStatus;

#[test]
fn test_health_status_display() {
    assert_eq!(HealthStatus::Up.to_string(), "正常");
    assert_eq!(HealthStatus::Down.to_string(), "异常");
    assert_eq!(HealthStatus::Unknown.to_string(), "未知");
    assert_eq!(HealthStatus::Degraded.to_string(), "降级");
}

#[test]
fn test_health_status_is_healthy() {
    assert!(HealthStatus::Up.is_healthy());
    assert!(!HealthStatus::Down.is_healthy());
    assert!(!HealthStatus::Unknown.is_healthy());
    assert!(!HealthStatus::Degraded.is_healthy());
}

#[test]
fn test_health_status_needs_alert() {
    assert!(!HealthStatus::Up.needs_alert());
    assert!(HealthStatus::Down.needs_alert());
    assert!(!HealthStatus::Unknown.needs_alert());
    assert!(HealthStatus::Degraded.needs_alert());
}
