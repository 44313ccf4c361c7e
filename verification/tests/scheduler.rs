use service_vitals::config::manager::{calculate_config_diff, ConfigManager};
use service_vitals::config::types::{Config, GlobalConfig, ServiceConfig};
use service_vitals::health::alert::AlertAction;
use service_vitals::health::checker::{HttpHealthChecker, ProbeResponse};
use service_vitals::health::result::{HealthResult, HealthStatus};
use service_vitals::health::scheduler::{
    is_enabled_name, ProbeGate, SchedulerError, TaskCommand, TaskScheduler,
};
use service_vitals::status::StatusManager;
use service_vitals::strmap::StrMap;

fn global(max: usize) -> GlobalConfig {
    GlobalConfig {
        default_feishu_webhook_url: None,
        message_template: None,
        check_interval_seconds: 60,
        log_level: "info".to_string(),
        request_timeout_seconds: 10,
        max_concurrent_checks: max,
        retry_attempts: 3,
        retry_delay_seconds: 5,
        headers: StrMap::new(),
        web: None,
    }
}

fn service(name: &str) -> ServiceConfig {
    ServiceConfig {
        name: name.to_string(),
        url: format!("http://h/{}", name),
        method: "GET".to_string(),
        expected_status_codes: vec![200],
        feishu_webhook_url: None,
        failure_threshold: 3,
        check_interval_seconds: None,
        enabled: true,
        description: None,
        headers: StrMap::new(),
        body: None,
        alert_cooldown_secs: 60,
    }
}

fn describe(commands: &[TaskCommand]) -> Vec<String> {
    commands
        .iter()
        .map(|c| match c {
            TaskCommand::Spawn { service, interval_secs } => {
                format!("spawn {} {}", service.name, interval_secs)
            }
            TaskCommand::Cancel { name } => format!("cancel {}", name),
        })
        .collect()
}

fn down(name: &str) -> HealthResult {
    HealthResult::new(name.to_string(), "u".to_string(), HealthStatus::Down, "GET".to_string())
}

fn up(name: &str) -> HealthResult {
    HealthResult::new(name.to_string(), "u".to_string(), HealthStatus::Up, "GET".to_string())
}

#[test]
fn test_scheduler_start() {
    let mut scheduler = TaskScheduler::new(global(50));
    let status = scheduler.get_status();
    assert!(!status.is_running);
    assert_eq!(status.running_tasks, 0);

    let mut b = service("b");
    b.enabled = false;
    let mut c = service("c");
    c.check_interval_seconds = Some(5);
    let commands = scheduler.start(&vec![service("a"), b, c]).unwrap();
    assert_eq!(describe(&commands), vec!["spawn a 60", "spawn c 5"]);
    let status = scheduler.get_status();
    assert!(status.is_running);
    assert_eq!(status.running_tasks, 2);
    assert_eq!(status.total_services, 3);
    assert!(scheduler.alert_state("a").is_some());
    assert!(scheduler.alert_state("b").is_none());
}

#[test]
fn test_scheduler_lifecycle_errors() {
    let mut scheduler = TaskScheduler::new(global(50));
    assert_eq!(scheduler.reload_config(&vec![service("a")]).unwrap_err(), SchedulerError::NotStarted);
    scheduler.start(&vec![service("a")]).unwrap();
    assert_eq!(scheduler.start(&vec![service("a")]).unwrap_err(), SchedulerError::AlreadyStarted);
    assert_eq!(scheduler.get_status().running_tasks, 1);
    let cancelled = scheduler.stop();
    assert_eq!(describe(&cancelled), vec!["cancel a"]);
    assert_eq!(scheduler.start(&vec![service("a")]).unwrap_err(), SchedulerError::Stopped);
    assert_eq!(scheduler.reload_config(&vec![service("a")]).unwrap_err(), SchedulerError::Stopped);
}

#[test]
fn test_scheduler_graceful_stop() {
    let mut scheduler = TaskScheduler::new(global(50));
    scheduler.start(&vec![service("a"), service("b")]).unwrap();
    assert_eq!(scheduler.begin_probe("a"), ProbeGate::Run);
    let cancelled = scheduler.stop();
    assert_eq!(describe(&cancelled), vec!["cancel a", "cancel b"]);
    let status = scheduler.get_status();
    assert!(!status.is_running);
    assert_eq!(status.running_tasks, 0);
    assert_eq!(scheduler.in_flight(), 0);
    // Whatever arrives after the stop is turned away.
    assert_eq!(scheduler.begin_probe("a"), ProbeGate::SkipGone);
    let mut late = down("a");
    assert_eq!(scheduler.complete_probe(&mut late, 10), AlertAction::NoAction);
    assert_eq!(late.consecutive_failures, 0);
    assert!(scheduler.alert_state("a").is_none());
    // Stopping again changes nothing and cancels nothing.
    assert!(scheduler.stop().is_empty());
    assert!(!scheduler.get_status().is_running);
}

#[test]
fn test_scheduler_concurrency_cap() {
    let mut scheduler = TaskScheduler::new(global(3));
    let services: Vec<ServiceConfig> = (0..10).map(|i| service(&format!("s{}", i))).collect();
    scheduler.start(&services).unwrap();
    let mut running = Vec::new();
    for s in &services {
        match scheduler.begin_probe(&s.name) {
            ProbeGate::Run => running.push(s.name.clone()),
            gate => assert_eq!(gate, ProbeGate::SkipBusy),
        }
        assert!(scheduler.in_flight() <= 3);
    }
    assert_eq!(running, vec!["s0", "s1", "s2"]);
    assert_eq!(scheduler.in_flight(), 3);
    assert_eq!(scheduler.begin_probe("s0"), ProbeGate::SkipInFlight);
    assert_eq!(scheduler.begin_probe("nobody"), ProbeGate::SkipGone);
    // A finished probe frees its permit, a given-up one too.
    let mut done = up("s0");
    scheduler.complete_probe(&mut done, 1);
    assert_eq!(scheduler.in_flight(), 2);
    scheduler.abandon_probe("s1");
    assert_eq!(scheduler.in_flight(), 1);
    assert_eq!(scheduler.begin_probe("s9"), ProbeGate::Run);
    assert_eq!(scheduler.begin_probe("s8"), ProbeGate::Run);
    assert_eq!(scheduler.begin_probe("s7"), ProbeGate::SkipBusy);
    assert_eq!(scheduler.in_flight(), 3);
}

#[test]
fn test_scheduler_probe_outcomes_drive_alerts() {
    let mut scheduler = TaskScheduler::new(global(50));
    scheduler.start(&vec![service("a")]).unwrap();
    let mut actions = Vec::new();
    for t in 1..=4u64 {
        assert_eq!(scheduler.begin_probe("a"), ProbeGate::Run);
        let mut r = down("a");
        actions.push(scheduler.complete_probe(&mut r, t));
        assert_eq!(r.consecutive_failures, t as u32);
    }
    assert_eq!(
        actions,
        vec![
            AlertAction::NoAction,
            AlertAction::NoAction,
            AlertAction::SendAlert,
            AlertAction::SendAlert
        ]
    );
    scheduler.record_delivery("a", AlertAction::SendAlert, true, 3);
    scheduler.record_delivery("a", AlertAction::SendAlert, false, 4);
    scheduler.record_delivery("a", AlertAction::NoAction, true, 4);
    let stats = scheduler.get_status().notification_stats;
    assert_eq!(stats.total_sent, 2);
    assert_eq!(stats.successful_sent, 1);
    assert_eq!(stats.failed_sent, 1);
    assert_eq!(stats.last_notification_time, Some(4));
    let state = scheduler.alert_state("a").unwrap();
    assert_eq!(state.notification_count, 1);
    assert_eq!(state.last_notification_time, Some(3));
    assert_eq!(state.alert_cooldown_until, Some(64));

    assert_eq!(scheduler.begin_probe("a"), ProbeGate::Run);
    let mut r = up("a");
    assert_eq!(scheduler.complete_probe(&mut r, 5), AlertAction::SendRecovery);
    assert_eq!(r.consecutive_failures, 0);
    scheduler.record_delivery("a", AlertAction::SendRecovery, true, 5);
    assert_eq!(scheduler.get_status().notification_stats.total_sent, 3);
    assert_eq!(scheduler.alert_state("a").unwrap().notification_count, 1);
}

#[test]
fn test_scheduler_discards_unasked_outcome() {
    let mut scheduler = TaskScheduler::new(global(50));
    scheduler.start(&vec![service("a")]).unwrap();
    let mut r = down("a").with_consecutive_failures(9);
    assert_eq!(scheduler.complete_probe(&mut r, 1), AlertAction::NoAction);
    assert_eq!(r.consecutive_failures, 9);
    assert_eq!(scheduler.alert_state("a").unwrap().consecutive_failures, 0);
}

#[test]
fn test_scheduler_reload_is_point_in_time() {
    let mut scheduler = TaskScheduler::new(global(50));
    scheduler.start(&vec![service("a"), service("b"), service("c")]).unwrap();
    for name in ["a", "b"] {
        assert_eq!(scheduler.begin_probe(name), ProbeGate::Run);
    }
    let mut first = down("b");
    scheduler.complete_probe(&mut first, 1);
    assert_eq!(scheduler.begin_probe("b"), ProbeGate::Run);

    let mut c = service("c");
    c.enabled = false;
    let commands = scheduler.reload_config(&vec![service("b"), c, service("d")]).unwrap();
    assert_eq!(
        describe(&commands),
        vec!["cancel a", "cancel c", "cancel b", "spawn b 60", "spawn d 60"]
    );
    let status = scheduler.get_status();
    assert_eq!(status.running_tasks, 2);
    assert_eq!(status.total_services, 3);
    assert_eq!(scheduler.in_flight(), 0);

    // The probe of the removed service that was in flight is turned away.
    let mut late = down("a");
    assert_eq!(scheduler.complete_probe(&mut late, 2), AlertAction::NoAction);
    assert_eq!(scheduler.begin_probe("a"), ProbeGate::SkipGone);
    assert!(scheduler.alert_state("a").is_none());
    assert!(scheduler.alert_state("c").is_none());
    // The restarted service starts afresh.
    assert_eq!(scheduler.alert_state("b").unwrap().consecutive_failures, 0);
    let mut stale = down("b");
    assert_eq!(scheduler.complete_probe(&mut stale, 2), AlertAction::NoAction);
    assert_eq!(scheduler.alert_state("b").unwrap().consecutive_failures, 0);
}

#[test]
fn test_scheduler_hot_add() {
    let old = Config { global: global(50), services: vec![service("A")] };
    let mut manager = ConfigManager::new(old.clone(), 0);
    let mut scheduler = TaskScheduler::new(old.global.clone());
    scheduler.start(&old.services).unwrap();
    assert_eq!(scheduler.begin_probe("A"), ProbeGate::Run);
    let mut r = down("A");
    scheduler.complete_probe(&mut r, 1);

    let new = Config { global: global(50), services: vec![service("A"), service("B")] };
    let update = manager.update_config(new.clone(), 10).unwrap();
    assert_eq!(update.version, 2);
    assert!(!update.requires_restart);
    let commands = scheduler.handle_config_update(&update, &new.global).unwrap();
    assert_eq!(describe(&commands), vec!["spawn B 60"]);
    assert_eq!(scheduler.get_status().running_tasks, 2);
    assert_eq!(scheduler.begin_probe("B"), ProbeGate::Run);
    // A goes on where it was.
    assert_eq!(scheduler.alert_state("A").unwrap().consecutive_failures, 1);
    assert_eq!(scheduler.begin_probe("A"), ProbeGate::Run);
}

#[test]
fn test_scheduler_applies_diffs() {
    let mut scheduler = TaskScheduler::new(global(50));
    let old = Config { global: global(50), services: vec![service("a"), service("b")] };
    scheduler.start(&old.services).unwrap();
    scheduler.begin_probe("b");
    let mut r = down("b");
    scheduler.complete_probe(&mut r, 1);

    let mut new_global = global(50);
    new_global.check_interval_seconds = 7;
    let mut b = service("b");
    b.url = "http://elsewhere".to_string();
    let new = Config { global: new_global, services: vec![b, service("c")] };
    let mut manager = ConfigManager::new(old, 0);
    let update = manager.update_config(new.clone(), 5).unwrap();
    assert!(update.requires_restart);
    assert_eq!(update.diffs.len(), 4);
    let commands = scheduler.handle_config_update(&update, &new.global).unwrap();
    // The global block comes first, so the tasks started after it run at the
    // new default interval.
    assert_eq!(describe(&commands), vec!["spawn c 7", "cancel a", "cancel b", "spawn b 7"]);
    assert!(scheduler.alert_state("a").is_none());
    assert_eq!(scheduler.alert_state("b").unwrap().consecutive_failures, 0);

    let mut stopped = TaskScheduler::new(global(1));
    assert_eq!(
        stopped.handle_config_update(&update, &new.global).unwrap_err(),
        SchedulerError::NotStarted
    );
    stopped.stop();
    assert_eq!(
        stopped.handle_config_update(&update, &new.global).unwrap_err(),
        SchedulerError::Stopped
    );
    assert!(calculate_config_diff(&new, &new).is_empty());
}

#[test]
fn test_scheduler_start_replaces_task_of_same_name() {
    let mut scheduler = TaskScheduler::new(global(50));
    scheduler.start(&vec![]).unwrap();
    let mut commands = Vec::new();
    scheduler.start_service_task(&service("a"), &mut commands);
    scheduler.start_service_task(&service("a"), &mut commands);
    scheduler.stop_service_task("a", &mut commands);
    scheduler.stop_service_task("a", &mut commands);
    assert_eq!(describe(&commands), vec!["spawn a 60", "cancel a", "spawn a 60", "cancel a"]);
    assert_eq!(scheduler.get_status().running_tasks, 0);
}

#[test]
fn test_is_enabled_name() {
    let mut b = service("b");
    b.enabled = false;
    let services = vec![service("a"), b];
    assert!(is_enabled_name(&services, "a"));
    assert!(!is_enabled_name(&services, "b"));
    assert!(!is_enabled_name(&services, "c"));
}

#[test]
fn test_happy_probe() {
    let mut s = service("s");
    s.url = "http://h/200".to_string();
    s.check_interval_seconds = Some(1);
    s.failure_threshold = 1;
    let checker = HttpHealthChecker::new(10, 0, 1);
    let mut scheduler = TaskScheduler::new(global(50));
    let mut registry = StatusManager::new("config.toml".to_string());
    registry.add_service(s.name.clone(), s.url.clone(), s.enabled);
    let commands = scheduler.start(&vec![s.clone()]).unwrap();
    assert_eq!(describe(&commands), vec!["spawn s 1"]);

    assert_eq!(scheduler.begin_probe("s"), ProbeGate::Run);
    let response = ProbeResponse { status_code: 200, content_length: Some(2), server: None };
    let mut result = checker.process_successful_response(&s, &response, 12);
    assert_eq!(result.status, HealthStatus::Up);
    assert_eq!(scheduler.complete_probe(&mut result, 1), AlertAction::NoAction);
    registry.update_service_status(&result);
    let snapshot = registry.get_overall_status();
    assert_eq!(snapshot.healthy_services, 1);
    assert_eq!(snapshot.total_services, 1);
    assert_eq!(snapshot.services[0].consecutive_failures, 0);
}
