use service_vitals::config::types::{
    default_alert_cooldown, default_check_interval, default_enabled, default_failure_threshold,
    default_log_level, default_max_concurrent, default_method, default_retry_attempts,
    default_retry_delay, default_timeout, Config, GlobalConfig, ServiceConfig, WebConfig,
};
use service_vitals::config::validation::{find_violation, validate_config, ConfigViolation};
use service_vitals::strmap::StrMap;

fn create_test_service() -> ServiceConfig {
    ServiceConfig {
        name: "Test Service".to_string(),
        url: "https://example.com/health".to_string(),
        method: "GET".to_string(),
        expected_status_codes: vec![200],
        feishu_webhook_url: None,
        failure_threshold: 1,
        check_interval_seconds: None,
        enabled: true,
        description: Some("Test service description".to_string()),
        headers: StrMap::new(),
        body: None,
        alert_cooldown_secs: 60,
    }
}

fn create_test_config() -> Config {
    Config {
        global: GlobalConfig {
            default_feishu_webhook_url: Some("https://example.com/webhook".to_string()),
            message_template: Some("Test template".to_string()),
            check_interval_seconds: 30,
            log_level: "info".to_string(),
            request_timeout_seconds: 10,
            max_concurrent_checks: 50,
            retry_attempts: 3,
            retry_delay_seconds: 5,
            headers: StrMap::new(),
            web: None,
        },
        services: vec![create_test_service()],
    }
}

fn config_with_web(web: WebConfig) -> Config {
    Config {
        global: GlobalConfig {
            default_feishu_webhook_url: None,
            message_template: None,
            check_interval_seconds: 60,
            log_level: "info".to_string(),
            request_timeout_seconds: 10,
            max_concurrent_checks: 50,
            retry_attempts: 3,
            retry_delay_seconds: 5,
            headers: StrMap::new(),
            web: Some(web),
        },
        services: vec![create_test_service()],
    }
}

fn web(port: u16, layout: &str, refresh: u32) -> WebConfig {
    WebConfig {
        enabled: true,
        port,
        bind_address: "127.0.0.1".to_string(),
        show_problems_only: false,
        layout_type: layout.to_string(),
        refresh_interval_seconds: refresh,
    }
}

#[test]
fn types_test_config_validation() {
    let config = create_test_config();
    assert!(validate_config(&config).is_ok());
}

#[test]
fn test_config_validation_empty_services() {
    let mut config = create_test_config();
    config.services.clear();

    let result = validate_config(&config);
    assert!(result.is_err());
    assert!(result.unwrap_err().contains("至少需要配置一个服务"));
}

#[test]
fn test_config_validation_invalid_url() {
    let mut config = create_test_config();
    config.services[0].url = "invalid-url".to_string();

    let result = validate_config(&config);
    assert!(result.is_err());
    assert!(result.unwrap_err().contains("URL格式无效"));
}

#[test]
fn test_config_validation_invalid_status_code() {
    let mut config = create_test_config();
    config.services[0].expected_status_codes = vec![999];

    let result = validate_config(&config);
    assert!(result.is_err());
    assert!(result.unwrap_err().contains("状态码"));
}

#[test]
fn test_config_validation_invalid_method() {
    let mut config = create_test_config();
    config.services[0].method = "INVALID".to_string();

    let result = validate_config(&config);
    assert!(result.is_err());
    assert!(result.unwrap_err().contains("HTTP方法"));
}

#[test]
fn test_default_values() {
    let global_config = GlobalConfig {
        default_feishu_webhook_url: None,
        message_template: None,
        check_interval_seconds: default_check_interval(),
        log_level: default_log_level(),
        request_timeout_seconds: default_timeout(),
        max_concurrent_checks: default_max_concurrent(),
        retry_attempts: default_retry_attempts(),
        retry_delay_seconds: default_retry_delay(),
        headers: StrMap::new(),
        web: None,
    };

    assert_eq!(global_config.check_interval_seconds, 60);
    assert_eq!(global_config.log_level, "info");
    assert_eq!(global_config.request_timeout_seconds, 10);
    assert_eq!(global_config.max_concurrent_checks, 50);
    assert_eq!(global_config.retry_attempts, 3);
    assert_eq!(global_config.retry_delay_seconds, 5);
}

#[test]
fn test_service_default_values() {
    assert_eq!(default_method(), "GET");
    assert_eq!(default_failure_threshold(), 1);
    assert!(default_enabled());
    assert_eq!(default_alert_cooldown(), 300);
}

#[test]
fn test_web_config_default() {
    let web_config = WebConfig::default();

    assert!(!web_config.enabled);
    assert_eq!(web_config.port, 8080);
    assert_eq!(web_config.bind_address, "0.0.0.0");
    assert!(!web_config.show_problems_only);
    assert_eq!(web_config.layout_type, "cards");
    assert_eq!(web_config.refresh_interval_seconds, 3);
}

#[test]
fn test_web_config_validation_valid() {
    let config = config_with_web(web(8080, "cards", 5));
    assert!(validate_config(&config).is_ok());
}

#[test]
fn test_web_config_validation_invalid_port() {
    let config = config_with_web(web(0, "cards", 5));
    let result = validate_config(&config);
    assert!(result.is_err());
    assert!(result.unwrap_err().contains("端口不能为0"));
}

#[test]
fn test_web_config_validation_invalid_layout() {
    let config = config_with_web(web(8080, "invalid", 5));
    let result = validate_config(&config);
    assert!(result.is_err());
    assert!(result.unwrap_err().contains("无效的界面布局类型"));
}

#[test]
fn test_web_config_validation_invalid_refresh_interval() {
    let config = config_with_web(web(8080, "cards", 0));
    let result = validate_config(&config);
    assert!(result.is_err());
    assert!(result.unwrap_err().contains("刷新间隔不能为0秒"));
}

#[test]
fn test_web_config_validation_refresh_interval_too_long() {
    let config = config_with_web(web(8080, "cards", 400));
    let result = validate_config(&config);
    assert!(result.is_err());
    assert!(result.unwrap_err().contains("刷新间隔不能超过300秒"));
}

#[test]
fn test_web_config_disabled_is_not_checked() {
    let mut w = web(0, "invalid", 0);
    w.enabled = false;
    assert!(validate_config(&config_with_web(w)).is_ok());
}

#[test]
fn test_validation_exact_messages() {
    let mut config = create_test_config();
    config.services[0].url = "ftp://example.com".to_string();
    assert_eq!(validate_config(&config).unwrap_err(), "服务 Test Service 的URL格式无效");

    let mut config = create_test_config();
    config.services[0].expected_status_codes = vec![200, 99, 700];
    assert_eq!(validate_config(&config).unwrap_err(), "服务 Test Service 的状态码 99 无效");

    let mut config = create_test_config();
    config.services[0].method = "get".to_string();
    assert_eq!(
        validate_config(&config).unwrap_err(),
        "服务 Test Service 的HTTP方法 get 无效，支持的方法: [\"GET\", \"POST\", \"PUT\", \"DELETE\", \"HEAD\", \"OPTIONS\", \"PATCH\"]"
    );

    let mut config = create_test_config();
    config.global.log_level = "trace".to_string();
    assert_eq!(
        validate_config(&config).unwrap_err(),
        "无效的日志级别: trace，支持的级别: [\"debug\", \"info\", \"warn\", \"error\"]"
    );
}

#[test]
fn test_validation_boundaries() {
    let mut config = create_test_config();
    config.services[0].failure_threshold = 0;
    assert_eq!(find_violation(&config), Some(ConfigViolation::ZeroFailureThreshold { index: 0 }));
    assert_eq!(validate_config(&config).unwrap_err(), "服务 Test Service 的失败阈值不能为0");

    let mut config = create_test_config();
    config.services[0].check_interval_seconds = Some(0);
    assert_eq!(find_violation(&config), Some(ConfigViolation::ZeroServiceInterval { index: 0 }));
    assert_eq!(validate_config(&config).unwrap_err(), "服务 Test Service 的检测间隔不能为0");

    let mut config = create_test_config();
    config.global.check_interval_seconds = 0;
    assert_eq!(find_violation(&config), Some(ConfigViolation::ZeroCheckInterval));
    assert_eq!(validate_config(&config).unwrap_err(), "检测间隔不能为0");

    let mut config = create_test_config();
    config.global.request_timeout_seconds = 0;
    assert_eq!(find_violation(&config), Some(ConfigViolation::ZeroRequestTimeout));

    let mut config = create_test_config();
    config.global.max_concurrent_checks = 0;
    assert_eq!(find_violation(&config), Some(ConfigViolation::ZeroMaxConcurrentChecks));

    let mut config = create_test_config();
    config.services[0].expected_status_codes = vec![];
    assert_eq!(find_violation(&config), Some(ConfigViolation::NoStatusCodes { index: 0 }));

    let mut config = create_test_config();
    config.services[0].expected_status_codes = vec![100, 599];
    assert_eq!(find_violation(&config), None);
    config.services[0].expected_status_codes = vec![100, 600];
    assert_eq!(
        find_violation(&config),
        Some(ConfigViolation::InvalidStatusCode { index: 0, code: 600 })
    );

    let mut config = create_test_config();
    config.services[0].name = "  \t".to_string();
    assert_eq!(find_violation(&config), Some(ConfigViolation::BlankServiceName { index: 0 }));
    assert_eq!(validate_config(&config).unwrap_err(), "服务名称不能为空");
}

#[test]
fn test_validation_duplicate_names() {
    let mut config = create_test_config();
    let mut second = create_test_service();
    second.url = "http://other.example.com".to_string();
    config.services.push(second);
    assert_eq!(find_violation(&config), Some(ConfigViolation::DuplicateServiceName { index: 1 }));
    assert_eq!(validate_config(&config).unwrap_err(), "服务 Test Service 的名称重复");
}

#[test]
fn test_validation_reports_first_broken_rule() {
    let mut config = create_test_config();
    let mut second = create_test_service();
    second.name = "Second".to_string();
    second.method = "FETCH".to_string();
    config.services.push(second);
    config.services[0].failure_threshold = 0;
    assert_eq!(find_violation(&config), Some(ConfigViolation::ZeroFailureThreshold { index: 0 }));
    config.services[0].failure_threshold = 1;
    assert_eq!(find_violation(&config), Some(ConfigViolation::InvalidMethod { index: 1 }));
    assert!(validate_config(&config).unwrap_err().contains("Second"));
}

#[test]
fn test_config_equality_ignores_header_order() {
    let mut a = create_test_service();
    a.headers.insert("A".to_string(), "1".to_string());
    a.headers.insert("B".to_string(), "2".to_string());
    let mut b = create_test_service();
    b.headers.insert("B".to_string(), "2".to_string());
    b.headers.insert("A".to_string(), "1".to_string());
    assert!(a == b);
    b.headers.insert("A".to_string(), "3".to_string());
    assert!(a != b);
    let c = a.clone();
    assert!(c == a);
}
