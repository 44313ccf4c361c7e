use service_vitals::config::manager::{
    calculate_config_diff, find_service, requires_service_restart, ConfigDiff, ConfigManager,
};
use service_vitals::config::types::{Config, GlobalConfig, ServiceConfig};
use service_vitals::config::watcher::ConfigChangeEvent;
use service_vitals::strmap::StrMap;

fn create_test_config() -> Config {
    Config {
        global: GlobalConfig {
            default_feishu_webhook_url: None,
            message_template: None,
            check_interval_seconds: 60,
            log_level: "info".to_string(),
            request_timeout_seconds: 10,
            max_concurrent_checks: 50,
            retry_attempts: 3,
            retry_delay_seconds: 5,
            headers: StrMap::new(),
            web: None,
        },
        services: vec![],
    }
}

fn service(name: &str) -> ServiceConfig {
    ServiceConfig {
        name: name.to_string(),
        url: "https://example.com/health".to_string(),
        method: "GET".to_string(),
        expected_status_codes: vec![200],
        feishu_webhook_url: None,
        failure_threshold: 1,
        check_interval_seconds: None,
        enabled: true,
        description: None,
        headers: StrMap::new(),
        body: None,
        alert_cooldown_secs: 300,
    }
}

fn describe(diffs: &[ConfigDiff]) -> Vec<String> {
    diffs
        .iter()
        .map(|d| match d {
            ConfigDiff::GlobalConfigModified => "global".to_string(),
            ConfigDiff::ServiceAdded(s) => format!("added {}", s.name),
            ConfigDiff::ServiceRemoved(name) => format!("removed {}", name),
            ConfigDiff::ServiceModified { old, new } => {
                format!("modified {} {}->{}", new.name, old.url, new.url)
            }
        })
        .collect()
}

// Applies differences to a configuration the way a subscriber would.
fn apply(config: &Config, diffs: &[ConfigDiff], new_global: &GlobalConfig) -> Config {
    let mut out = config.clone();
    for d in diffs {
        match d {
            ConfigDiff::GlobalConfigModified => out.global = new_global.clone(),
            ConfigDiff::ServiceAdded(s) => out.services.push(s.clone()),
            ConfigDiff::ServiceRemoved(name) => out.services.retain(|s| &s.name != name),
            ConfigDiff::ServiceModified { new, .. } => {
                for s in out.services.iter_mut() {
                    if s.name == new.name {
                        *s = (**new).clone();
                    }
                }
            }
        }
    }
    out
}

fn same_service_set(a: &Config, b: &Config) -> bool {
    a.services.len() == b.services.len()
        && a.services.iter().all(|s| b.services.iter().any(|t| s == t))
}

#[test]
fn test_config_manager_creation() {
    let config = create_test_config();
    let manager = ConfigManager::new(config, 7);

    let current_config = manager.get_config();
    assert_eq!(current_config.global.log_level, "info");
    assert_eq!(manager.get_version(), 1);
    assert_eq!(manager.get_last_update(), 7);
}

#[test]
fn test_manual_config_update() {
    let config = create_test_config();
    let mut manager = ConfigManager::new(config, 0);

    let mut new_config = create_test_config();
    new_config.global.log_level = "debug".to_string();

    let notification = manager.update_config(new_config, 9).unwrap();
    assert_eq!(notification.version, 2);
    assert_eq!(manager.get_version(), 2);
    assert_eq!(notification.timestamp, 9);
    assert!(notification.requires_restart);
    assert_eq!(describe(&notification.diffs), vec!["global"]);

    let updated_config = manager.get_config();
    assert_eq!(updated_config.global.log_level, "debug");
    assert_eq!(manager.get_last_update(), 9);
}

#[test]
fn test_update_without_change_is_swallowed() {
    let mut config = create_test_config();
    config.services.push(service("a"));
    let mut manager = ConfigManager::new(config.clone(), 3);
    assert!(manager.update_config(config.clone(), 10).is_none());
    assert_eq!(manager.get_version(), 1);
    assert_eq!(manager.get_last_update(), 3);
    let event =
        ConfigChangeEvent { config_path: "c.toml".to_string(), new_config: config, timestamp: 11, version: 1 };
    assert!(manager.handle_config_change(event).is_none());
    assert_eq!(manager.get_version(), 1);
}

#[test]
fn test_handle_config_change_bumps_version() {
    let mut manager = ConfigManager::new(create_test_config(), 0);
    let mut new_config = create_test_config();
    new_config.services.push(service("a"));
    let event = ConfigChangeEvent {
        config_path: "c.toml".to_string(),
        new_config,
        timestamp: 21,
        version: 1,
    };
    let notification = manager.handle_config_change(event).unwrap();
    assert_eq!(notification.version, 2);
    assert_eq!(notification.timestamp, 21);
    assert!(!notification.requires_restart);
    assert_eq!(describe(&notification.diffs), vec!["added a"]);
    assert_eq!(manager.get_config().services.len(), 1);
    assert_eq!(manager.get_last_update(), 21);
}

#[test]
fn test_diff_order_and_content() {
    let mut old = create_test_config();
    old.services = vec![service("keep"), service("gone1"), service("change"), service("gone2")];
    let mut new = create_test_config();
    new.global.retry_attempts = 9;
    let mut changed = service("change");
    changed.url = "https://example.com/v2".to_string();
    new.services = vec![service("new1"), changed, service("keep"), service("new2")];
    let diffs = calculate_config_diff(&old, &new);
    assert_eq!(
        describe(&diffs),
        vec![
            "global",
            "added new1",
            "added new2",
            "removed gone1",
            "removed gone2",
            "modified change https://example.com/health->https://example.com/v2"
        ]
    );
    assert!(requires_service_restart(&diffs));
}

#[test]
fn test_requires_service_restart() {
    let base = service("s");
    let modified = |f: &dyn Fn(&mut ServiceConfig)| {
        let mut new = service("s");
        f(&mut new);
        vec![ConfigDiff::ServiceModified { old: Box::new(base.clone()), new: Box::new(new) }]
    };
    assert!(requires_service_restart(&modified(&|s| s.url = "http://x".to_string())));
    assert!(requires_service_restart(&modified(&|s| s.method = "POST".to_string())));
    assert!(requires_service_restart(&modified(&|s| s.expected_status_codes = vec![200, 201])));
    assert!(requires_service_restart(&modified(&|s| s.check_interval_seconds = Some(5))));
    assert!(!requires_service_restart(&modified(&|s| s.failure_threshold = 4)));
    assert!(!requires_service_restart(&modified(&|s| s.description = Some("d".to_string()))));
    assert!(!requires_service_restart(&vec![
        ConfigDiff::ServiceAdded(service("a")),
        ConfigDiff::ServiceRemoved("b".to_string())
    ]));
    assert!(requires_service_restart(&vec![
        ConfigDiff::ServiceAdded(service("a")),
        ConfigDiff::GlobalConfigModified
    ]));
    assert!(!requires_service_restart(&vec![]));
}

#[test]
fn test_diff_recreates_new_config() {
    let mut old = create_test_config();
    old.services = vec![service("a"), service("b"), service("c")];
    let mut new = create_test_config();
    new.global.max_concurrent_checks = 3;
    let mut b = service("b");
    b.headers.insert("X".to_string(), "1".to_string());
    new.services = vec![service("d"), b, service("a")];
    for (from, to) in [(&old, &new), (&new, &old), (&old, &old), (&create_test_config(), &new)] {
        let diffs = calculate_config_diff(from, to);
        let rebuilt = apply(from, &diffs, &to.global);
        assert!(rebuilt.global == to.global);
        assert!(same_service_set(&rebuilt, to));
    }
}

#[test]
fn test_find_service() {
    let services = vec![service("a"), service("b"), service("a")];
    assert_eq!(find_service(&services, "a"), Some(0));
    assert_eq!(find_service(&services, "b"), Some(1));
    assert_eq!(find_service(&services, "c"), None);
}
