use service_vitals::config::types::{Config, GlobalConfig};
use service_vitals::config::watcher::{ConfigWatcher, FileEvent, FileEventKind};
use service_vitals::strmap::StrMap;

fn event(kind: FileEventKind, paths: &[&str]) -> FileEvent {
    FileEvent { kind, paths: paths.iter().map(|p| p.to_string()).collect() }
}

fn config(level: &str) -> Config {
    Config {
        global: GlobalConfig {
            default_feishu_webhook_url: None,
            message_template: None,
            check_interval_seconds: 60,
            log_level: level.to_string(),
            request_timeout_seconds: 10,
            max_concurrent_checks: 50,
            retry_attempts: 3,
            retry_delay_seconds: 5,
            headers: StrMap::new(),
            web: None,
        },
        services: vec![],
    }
}

#[test]
fn test_is_target_file_event() {
    let target = "/etc/sv/config.toml";
    assert!(ConfigWatcher::is_target_file_event(&event(FileEventKind::Modify, &[target]), target));
    assert!(ConfigWatcher::is_target_file_event(
        &event(FileEventKind::Create, &["/etc/sv/other", target]),
        target
    ));
    assert!(!ConfigWatcher::is_target_file_event(&event(FileEventKind::Remove, &[target]), target));
    assert!(!ConfigWatcher::is_target_file_event(&event(FileEventKind::Access, &[target]), target));
    assert!(!ConfigWatcher::is_target_file_event(&event(FileEventKind::Other, &[target]), target));
    assert!(!ConfigWatcher::is_target_file_event(
        &event(FileEventKind::Modify, &["/etc/sv/config.toml.bak"]),
        target
    ));
    assert!(!ConfigWatcher::is_target_file_event(&event(FileEventKind::Modify, &[]), target));
}

#[test]
fn test_debounce_restarts_on_further_events() {
    let mut watcher = ConfigWatcher::new("c.toml".to_string(), 500);
    assert_eq!(watcher.next_wake(), None);
    assert!(!watcher.take_due_reload(10_000));

    assert!(watcher.handle_file_event(&event(FileEventKind::Modify, &["c.toml"]), 1_000));
    assert_eq!(watcher.next_wake(), Some(1_500));
    assert!(!watcher.handle_file_event(&event(FileEventKind::Modify, &["d.toml"]), 1_100));
    assert_eq!(watcher.next_wake(), Some(1_500));
    assert!(watcher.handle_file_event(&event(FileEventKind::Create, &["c.toml"]), 1_300));
    assert_eq!(watcher.next_wake(), Some(1_800));

    assert!(!watcher.take_due_reload(1_500));
    assert!(!watcher.take_due_reload(1_799));
    assert_eq!(watcher.next_wake(), Some(1_800));
    assert!(watcher.take_due_reload(1_800));
    assert_eq!(watcher.next_wake(), None);
    assert!(!watcher.take_due_reload(5_000));
}

#[test]
fn test_reload_versions_count_from_one() {
    let mut watcher = ConfigWatcher::new("c.toml".to_string(), 500);
    let first = watcher.reload_config(Some(config("info")), 10).unwrap();
    assert_eq!(first.version, 1);
    assert_eq!(first.timestamp, 10);
    assert_eq!(first.config_path, "c.toml");
    assert_eq!(first.new_config.global.log_level, "info");
    let second = watcher.reload_config(Some(config("debug")), 20).unwrap();
    assert_eq!(second.version, 2);
    assert_eq!(second.new_config.global.log_level, "debug");
}

#[test]
fn test_bad_reload_announces_nothing() {
    let mut watcher = ConfigWatcher::new("c.toml".to_string(), 500);
    assert!(watcher.reload_config(Some(config("info")), 10).is_some());
    assert!(watcher.reload_config(None, 20).is_none());
    assert!(watcher.reload_config(None, 30).is_none());
    let next = watcher.reload_config(Some(config("warn")), 40).unwrap();
    assert_eq!(next.version, 2);
}
