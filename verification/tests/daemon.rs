use service_vitals::daemon::service_manager::{parse_systemd_state, PathFacts, ServiceManager};
use service_vitals::daemon::unix::UnixDaemonManager;
use service_vitals::daemon::{DaemonConfig, DaemonStatus};

#[test]
fn test_daemon_config_default() {
    let config = DaemonConfig::default();
    assert_eq!(config.service_name, "service-vitals");
    assert_eq!(config.display_name, "Service Vitals Monitor");
}

#[test]
fn test_daemon_config_for_development() {
    let config = DaemonConfig::for_development(".".to_string());
    assert_eq!(config.config_path, "./config.toml");
    assert!(config.user.is_none());
    assert!(config.group.is_none());
    assert_eq!(config.working_directory, ".");
    assert_eq!(config.pid_file, Some("./service-vitals.pid".to_string()));
}

#[test]
fn test_unix_daemon_manager_creation() {
    let manager = UnixDaemonManager::new(true);
    assert!(manager.use_systemd || !manager.use_systemd);
    assert!(manager.use_systemd);
    assert!(!UnixDaemonManager::new(false).use_systemd);
}

#[test]
fn test_systemd_service_generation() {
    let manager = UnixDaemonManager::new(true);
    let config = DaemonConfig::default();
    let service_content = manager.generate_systemd_service(&config);

    assert!(service_content.contains("[Unit]"));
    assert!(service_content.contains("[Service]"));
    assert!(service_content.contains("[Install]"));
    assert!(service_content.contains(&config.description));
}

#[test]
fn test_systemd_service_exact_text() {
    let manager = UnixDaemonManager::new(true);
    let mut config = DaemonConfig::for_development("/srv/sv".to_string());
    config.description = "D".to_string();
    config.executable_path = "/bin/sv".to_string();
    config.log_file = None;
    config.pid_file = None;
    config.user = Some("u".to_string());
    let unit = manager.generate_systemd_service(&config);
    assert_eq!(
        unit,
        "[Unit]\nDescription=D\nAfter=network.target\nWants=network.target\n\n[Service]\nType=simple\nExecStart=/bin/sv --config ./config.toml start \nExecReload=/bin/kill -USR1 $MAINPID\nRestart=always\nRestartSec=5\nKillMode=mixed\nTimeoutStopSec=30\nUser=u\nWorkingDirectory=/srv/sv\n\n# Security settings\nNoNewPrivileges=true\nProtectSystem=strict\nProtectHome=true\nReadWritePaths=/var/lib/service-vitals /var/log /tmp\nPrivateTmp=true\nProtectKernelTunables=true\nProtectKernelModules=true\nProtectControlGroups=true\n\n[Install]\nWantedBy=multi-user.target\n"
    );
    let full = manager.generate_systemd_service(&DaemonConfig::default());
    assert!(full.contains("User=service-vitals\nGroup=service-vitals\nWorkingDirectory=/var/lib/service-vitals\nPIDFile=/var/run/service-vitals.pid\nStandardOutput=append:/var/log/service-vitals.log\nStandardError=append:/var/log/service-vitals.log\n"));
}

#[test]
fn test_systemd_service_path() {
    let manager = UnixDaemonManager::new(true);
    let path = manager.get_systemd_service_path("test-service");
    assert_eq!(path, "/etc/systemd/system/test-service.service");
}

#[test]
fn test_traditional_daemon_status() {
    let manager = UnixDaemonManager::new(false);
    let mut config = DaemonConfig::default();
    assert_eq!(manager.get_traditional_daemon_status(&config, true), DaemonStatus::Running);
    assert_eq!(manager.get_traditional_daemon_status(&config, false), DaemonStatus::Stopped);
    config.pid_file = None;
    assert_eq!(manager.get_traditional_daemon_status(&config, true), DaemonStatus::Unknown);
}

#[test]
fn service_manager_test_config_validation() {
    let manager = ServiceManager::new();
    let mut config = DaemonConfig::for_development(".".to_string());

    config.executable_path = "/nonexistent/path".to_string();
    config.config_path = "/nonexistent/config.toml".to_string();
    let facts = PathFacts {
        executable_exists: false,
        config_exists: false,
        working_directory_exists: true,
        missing_pid_directory: None,
    };

    let warnings = manager.validate_config(&config, &facts);
    assert!(!warnings.is_empty());
    assert!(warnings.iter().any(|w| w.contains("可执行文件不存在")));
    assert!(warnings.iter().any(|w| w.contains("配置文件不存在")));
    assert_eq!(
        warnings,
        vec![
            "可执行文件不存在: /nonexistent/path".to_string(),
            "配置文件不存在: /nonexistent/config.toml".to_string()
        ]
    );
}

#[test]
fn test_config_validation_all_warnings() {
    let manager = ServiceManager::new();
    let mut config = DaemonConfig::default();
    config.user = Some(String::new());
    config.group = Some(String::new());
    let facts = PathFacts {
        executable_exists: true,
        config_exists: true,
        working_directory_exists: false,
        missing_pid_directory: Some("/var/run".to_string()),
    };
    assert_eq!(
        manager.validate_config(&config, &facts),
        vec![
            "工作目录不存在: /var/lib/service-vitals".to_string(),
            "用户名不能为空".to_string(),
            "组名不能为空".to_string(),
            "PID文件目录不存在: /var/run".to_string()
        ]
    );
}

#[test]
fn test_config_suggestions() {
    let manager = ServiceManager::new();
    let config = DaemonConfig::for_development(".".to_string());

    let suggestions = manager.suggest_config_improvements(&config);
    assert!(!suggestions.is_empty());
    assert_eq!(suggestions, vec!["建议指定专用用户运行服务以提高安全性".to_string()]);

    let mut config = DaemonConfig::default();
    config.user = Some("root".to_string());
    config.log_file = None;
    config.working_directory = "/tmp/sv".to_string();
    assert_eq!(
        manager.suggest_config_improvements(&config),
        vec![
            "不建议使用root用户运行服务".to_string(),
            "建议配置日志文件以便问题排查".to_string(),
            "不建议使用临时目录作为工作目录".to_string()
        ]
    );
    assert!(manager.suggest_config_improvements(&DaemonConfig::default()).is_empty());
}

#[test]
fn test_parse_systemd_state() {
    assert_eq!(parse_systemd_state("active"), DaemonStatus::Running);
    assert_eq!(parse_systemd_state("inactive"), DaemonStatus::Stopped);
    assert_eq!(parse_systemd_state("activating"), DaemonStatus::Starting);
    assert_eq!(parse_systemd_state("deactivating"), DaemonStatus::Stopping);
    assert_eq!(parse_systemd_state("failed"), DaemonStatus::Unknown);
}
