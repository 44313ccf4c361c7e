use service_vitals::health::result::{HealthResult, HealthStatus};
use service_vitals::status::StatusManager;

fn result(name: &str, status: HealthStatus) -> HealthResult {
    HealthResult::at(1, 1_000, name.to_string(), "http://probe".to_string(), status, "GET".to_string())
}

#[test]
fn test_status_manager_creation() {
    let manager = StatusManager::new("test.toml".to_string());
    let status = manager.get_overall_status();

    assert_eq!(status.total_services, 0);
    assert_eq!(status.healthy_services, 0);
    assert_eq!(status.unhealthy_services, 0);
    assert_eq!(status.config_path, "test.toml");
    assert!(status.start_time > 1_600_000_000_000);
}

#[test]
fn test_add_and_update_service() {
    let mut manager = StatusManager::new("test.toml".to_string());
    manager.add_service("test-service".to_string(), "http://example.com".to_string(), true);

    let status = manager.get_overall_status();
    assert_eq!(status.total_services, 1);
    assert_eq!(status.healthy_services, 0);
    assert_eq!(status.unhealthy_services, 0);

    let health_result = HealthResult::new(
        "test-service".to_string(),
        "http://example.com".to_string(),
        HealthStatus::Up,
        "GET".to_string(),
    )
    .with_status_code(200)
    .with_response_time(100);

    manager.update_service_status(&health_result);

    let updated_status = manager.get_overall_status();
    assert_eq!(updated_status.healthy_services, 1);
    let entry = manager.get_service_status("test-service").unwrap();
    assert_eq!(entry.status_code, Some(200));
    assert_eq!(entry.response_time_ms, Some(100));
    assert_eq!(entry.last_check, Some(health_result.timestamp));
}

#[test]
fn test_config_reload_tracking() {
    let mut manager = StatusManager::new("test.toml".to_string());

    let status_before = manager.get_overall_status();
    assert!(status_before.last_config_reload.is_none());

    manager.mark_config_reload();

    let status_after = manager.get_overall_status();
    assert!(status_after.last_config_reload.is_some());
    manager.mark_config_reload_at(77);
    assert_eq!(manager.get_overall_status().last_config_reload, Some(77));
}

#[test]
fn test_add_service_keeps_existing_entry() {
    let mut manager = StatusManager::started_at("c.toml".to_string(), 5);
    manager.add_service("s".to_string(), "http://one".to_string(), true);
    manager.update_service_status(&result("s", HealthStatus::Down).with_consecutive_failures(2));
    manager.add_service("s".to_string(), "http://two".to_string(), false);
    let entry = manager.get_service_status("s").unwrap();
    assert_eq!(entry.url, "http://one");
    assert!(entry.enabled);
    assert_eq!(entry.status, HealthStatus::Down);
    assert_eq!(entry.consecutive_failures, 2);
    assert_eq!(manager.get_all_services().len(), 1);
}

#[test]
fn test_update_copies_outcome_into_entry() {
    let mut manager = StatusManager::started_at("c.toml".to_string(), 5);
    manager.add_service("s".to_string(), "http://configured".to_string(), false);
    let r = result("s", HealthStatus::Down)
        .with_status_code(503)
        .with_response_time(250)
        .with_error("HTTP 503 Service Unavailable".to_string())
        .with_consecutive_failures(4);
    manager.update_service_status(&r);
    let entry = manager.get_service_status("s").unwrap();
    assert_eq!(entry.name, "s");
    assert_eq!(entry.url, "http://configured");
    assert!(!entry.enabled);
    assert_eq!(entry.status, HealthStatus::Down);
    assert_eq!(entry.status_code, Some(503));
    assert_eq!(entry.response_time_ms, Some(250));
    assert_eq!(entry.last_check, Some(1_000));
    assert_eq!(entry.consecutive_failures, 4);
    assert_eq!(entry.error_message, Some("HTTP 503 Service Unavailable".to_string()));

    manager.update_service_status(&result("unseen", HealthStatus::Up));
    let entry = manager.get_service_status("unseen").unwrap();
    assert_eq!(entry.url, "http://probe");
    assert!(entry.enabled);
    assert_eq!(entry.error_message, None);
}

#[test]
fn test_snapshot_totals() {
    let mut manager = StatusManager::started_at("c.toml".to_string(), 5);
    for (name, enabled) in [("up", true), ("down", true), ("degraded", true), ("pending", true), ("off", false), ("off-up", false)] {
        manager.add_service(name.to_string(), "http://h".to_string(), enabled);
    }
    manager.update_service_status(&result("up", HealthStatus::Up));
    manager.update_service_status(&result("down", HealthStatus::Down));
    manager.update_service_status(&result("degraded", HealthStatus::Degraded));
    manager.update_service_status(&result("off-up", HealthStatus::Up));
    let snapshot = manager.get_overall_status();
    assert_eq!(snapshot.start_time, 5);
    assert_eq!(snapshot.total_services, 6);
    assert_eq!(snapshot.healthy_services, 1);
    assert_eq!(snapshot.unhealthy_services, 2);
    assert_eq!(snapshot.disabled_services, 2);
    let names: Vec<&str> = snapshot.services.iter().map(|s| s.name.as_str()).collect();
    assert_eq!(names, vec!["up", "down", "degraded", "pending", "off", "off-up"]);

    manager.remove_service("down");
    manager.remove_service("nobody");
    let snapshot = manager.get_overall_status();
    assert_eq!(snapshot.total_services, 5);
    assert_eq!(snapshot.unhealthy_services, 1);
    assert!(manager.get_service_status("down").is_none());
    assert_eq!(StatusManager::get_default_status_file_path(), "/tmp/service-vitals-status.json");
}
