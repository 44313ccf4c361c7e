use service_vitals::cli::args::{Args, Commands, LogLevel, OutputFormat};
use service_vitals::config::types::ServiceConfig;
use service_vitals::error::{
    ConfigError, ErrorSeverity, HealthCheckError, NotificationError, RecoveryStrategy,
    ServiceVitalsError,
};
use service_vitals::health::result::{HealthResult, HealthStatus};
use service_vitals::notification::feishu::{health_message, FeishuConfig, FeishuMessageFormat};
use service_vitals::notification::sender::{MessageType, NoOpSender, NotificationMessage};
use service_vitals::notification::template::{
    default_alert_template, default_recovery_template, replace_all, SimpleTemplate, TemplateContext,
};
use service_vitals::strmap::StrMap;

fn service(own_webhook: Option<&str>) -> ServiceConfig {
    ServiceConfig {
        name: "svc".to_string(),
        url: "http://svc".to_string(),
        method: "GET".to_string(),
        expected_status_codes: vec![200],
        feishu_webhook_url: own_webhook.map(|u| u.to_string()),
        failure_threshold: 1,
        check_interval_seconds: None,
        enabled: true,
        description: None,
        headers: StrMap::new(),
        body: None,
        alert_cooldown_secs: 60,
    }
}

#[test]
fn test_simple_template_render() {
    let template = SimpleTemplate::new("Service {{service_name}} is {{status_code}}".to_string());
    let context = TemplateContext {
        service_name: "test-service".to_string(),
        service_url: "http://example.com".to_string(),
        status_code: Some(200),
        response_time: 100,
        timestamp: "2023-01-01 12:00:00".to_string(),
        error_message: None,
        custom_fields: StrMap::new(),
    };

    let result = template.render(&context);
    assert_eq!(result, "Service test-service is 200");
    assert!(template.validate());
}

#[test]
fn test_template_with_missing_status_code() {
    let template = SimpleTemplate::new("Status: {{status_code}}".to_string());
    let context = TemplateContext {
        service_name: "test".to_string(),
        service_url: "http://example.com".to_string(),
        status_code: None,
        response_time: 100,
        timestamp: "2023-01-01 12:00:00".to_string(),
        error_message: None,
        custom_fields: StrMap::new(),
    };

    let result = template.render(&context);
    assert_eq!(result, "Status: N/A");
}

#[test]
fn test_template_all_fields() {
    let mut custom_fields = StrMap::new();
    custom_fields.insert("http_method".to_string(), "GET".to_string());
    custom_fields.insert("health_status".to_string(), "false".to_string());
    let template = SimpleTemplate::new(
        "{{service_name}}|{{service_url}}|{{response_time}}ms|{{timestamp}}|{{status_code}}|[{{error_message}}]|{{http_method}}|{{health_status}}|{{other}}|{{service_name}}"
            .to_string(),
    );
    let context = TemplateContext {
        service_name: "n".to_string(),
        service_url: "u".to_string(),
        status_code: Some(503),
        response_time: 1500,
        timestamp: "t".to_string(),
        error_message: Some("boom".to_string()),
        custom_fields,
    };
    assert_eq!(template.render(&context), "n|u|1500ms|t|503|[boom]|GET|false|{{other}}|n");
    let mut quiet = context;
    quiet.error_message = None;
    quiet.response_time = 0;
    assert_eq!(template.render(&quiet), "n|u|0ms|t|503|[]|GET|false|{{other}}|n");
}

#[test]
fn test_replace_all() {
    assert_eq!(replace_all("aaa", "aa", "b"), "ba");
    assert_eq!(replace_all("abcabc", "bc", ""), "aa");
    assert_eq!(replace_all("abc", "", "x"), "abc");
    assert_eq!(replace_all("", "a", "x"), "");
    assert_eq!(replace_all("服务服", "服", "ab"), "ab务ab");
    assert_eq!(replace_all("abc", "abcd", "x"), "abc");
}

#[test]
fn test_default_templates() {
    let alert = default_alert_template();
    assert!(alert.starts_with("🚨 **服务告警**\n\n**基本信息**\n- **服务名称**: {{service_name}}\n"));
    assert!(alert.contains("{{#if error_message}}"));
    assert!(alert.ends_with("---\n*Service Vitals 自动监控*"));
    let recovery = default_recovery_template();
    assert!(recovery.starts_with("✅ **服务恢复**"));
    assert!(recovery.contains("- **健康状态**: {{status_emoji true}} 正常"));
    assert_ne!(alert, recovery);
}

#[test]
fn test_noop_sender() {
    let sender = NoOpSender;
    let result =
        HealthResult::new("svc".to_string(), "u".to_string(), HealthStatus::Down, "GET".to_string());
    assert!(sender.send_health_alert(&service(None), &result).is_ok());
    let message = NotificationMessage {
        title: "t".to_string(),
        content: "c".to_string(),
        service_name: "svc".to_string(),
        service_url: "u".to_string(),
        message_type: MessageType::Info,
    };
    assert!(sender.send_message(&message).is_ok());
    assert!(sender.test_connection().is_ok());
}

#[test]
fn test_webhook_resolution() {
    let mut config = FeishuConfig::default();
    assert!(config.webhook_url.is_none());
    assert!(config.mention_all);
    assert_eq!(config.max_retries, 3);
    assert_eq!(config.retry_delay, 5);
    assert_eq!(config.timeout, 30);
    assert_eq!(config.default_format, FeishuMessageFormat::Card);
    assert_eq!(config.get_webhook_url(&service(None)), None);
    assert_eq!(config.get_webhook_url(&service(Some("http://own"))), Some("http://own".to_string()));
    config.webhook_url = Some("http://default".to_string());
    assert_eq!(config.get_webhook_url(&service(None)), Some("http://default".to_string()));
    assert_eq!(config.get_webhook_url(&service(Some("http://own"))), Some("http://own".to_string()));
}

#[test]
fn test_health_message() {
    let down =
        HealthResult::new("svc".to_string(), "u".to_string(), HealthStatus::Down, "GET".to_string());
    let m = health_message(&service(None), &down, "body".to_string());
    assert_eq!(m.title, "🚨 服务告警 - svc");
    assert_eq!(m.content, "body");
    assert_eq!(m.service_name, "svc");
    assert_eq!(m.service_url, "http://svc");
    assert_eq!(m.message_type, MessageType::Alert);
    let up =
        HealthResult::new("svc".to_string(), "u".to_string(), HealthStatus::Up, "GET".to_string());
    let m = health_message(&service(None), &up, "back".to_string());
    assert_eq!(m.title, "✅ 服务恢复 - svc");
    assert_eq!(m.message_type, MessageType::Recovery);
}

#[test]
fn test_error_messages() {
    assert_eq!(ConfigError::ParseError("x".to_string()).to_string(), "配置文件解析失败: x");
    assert_eq!(ConfigError::ValidationError("x".to_string()).to_string(), "配置验证失败: x");
    assert_eq!(ConfigError::FileNotFound { path: "p".to_string() }.to_string(), "配置文件不存在: p");
    assert_eq!(ConfigError::EnvVarError { var: "V".to_string() }.to_string(), "环境变量替换失败: V");
    assert_eq!(HealthCheckError::RequestError("x".to_string()).to_string(), "HTTP请求失败: x");
    assert_eq!(HealthCheckError::Timeout.to_string(), "请求超时");
    assert_eq!(
        HealthCheckError::StatusCodeMismatch { expected: vec![200], actual: 404 }.to_string(),
        "状态码不匹配: 期望 [200], 实际 404"
    );
    assert_eq!(
        HealthCheckError::StatusCodeMismatch { expected: vec![200, 201, 204], actual: 500 }.to_string(),
        "状态码不匹配: 期望 [200, 201, 204], 实际 500"
    );
    assert_eq!(
        HealthCheckError::StatusCodeMismatch { expected: vec![], actual: 500 }.to_string(),
        "状态码不匹配: 期望 [], 实际 500"
    );
    assert_eq!(HealthCheckError::ConnectionError { url: "u".to_string() }.to_string(), "连接失败: u");
    assert_eq!(NotificationError::SendError("x".to_string()).to_string(), "通知发送失败: x");
    assert_eq!(NotificationError::TemplateError("x".to_string()).to_string(), "模板渲染失败: x");
    assert_eq!(NotificationError::ConfigError("x".to_string()).to_string(), "通知配置错误: x");
}

#[test]
fn test_error_severity_and_recovery() {
    let cases = vec![
        (
            ServiceVitalsError::Config(ConfigError::ParseError("x".to_string())),
            ErrorSeverity::High,
            RecoveryStrategy::StopService,
            false,
        ),
        (
            ServiceVitalsError::HealthCheck(HealthCheckError::Timeout),
            ErrorSeverity::Medium,
            RecoveryStrategy::Retry,
            true,
        ),
        (
            ServiceVitalsError::HealthCheck(HealthCheckError::StatusCodeMismatch {
                expected: vec![200],
                actual: 500,
            }),
            ErrorSeverity::Low,
            RecoveryStrategy::Skip,
            false,
        ),
        (
            ServiceVitalsError::Notification(NotificationError::SendError("x".to_string())),
            ErrorSeverity::Low,
            RecoveryStrategy::Retry,
            true,
        ),
        (
            ServiceVitalsError::DaemonError("x".to_string()),
            ErrorSeverity::High,
            RecoveryStrategy::StopService,
            false,
        ),
        (ServiceVitalsError::Io("x".to_string()), ErrorSeverity::High, RecoveryStrategy::UseDefault, true),
        (ServiceVitalsError::Json("x".to_string()), ErrorSeverity::Medium, RecoveryStrategy::Skip, false),
        (
            ServiceVitalsError::Other("x".to_string()),
            ErrorSeverity::Medium,
            RecoveryStrategy::Nothing,
            false,
        ),
    ];
    for (error, severity, strategy, retryable) in cases {
        assert_eq!(error.severity(), severity);
        assert_eq!(error.recovery_strategy(), strategy);
        assert_eq!(error.is_retryable(), retryable);
        assert!(!error.is_fatal());
    }
}

#[test]
fn test_args() {
    let mut args = Args {
        config: None,
        log_level: LogLevel::Info,
        verbose: false,
        daemon: false,
        pid_file: None,
        workdir: None,
        command: Commands::Status { format: OutputFormat::Text, verbose: false },
    };
    assert_eq!(args.get_config_path("default.toml".to_string()), "default.toml");
    assert!(!args.is_verbose());
    args.config = Some("named.toml".to_string());
    assert_eq!(args.get_config_path("default.toml".to_string()), "named.toml");
    args.log_level = LogLevel::Debug;
    assert!(args.is_verbose());
    args.log_level = LogLevel::Warn;
    args.verbose = true;
    assert!(args.is_verbose());
    assert_eq!(LogLevel::Debug.to_string(), "debug");
    assert_eq!(LogLevel::Info.to_string(), "info");
    assert_eq!(LogLevel::Warn.to_string(), "warn");
    assert_eq!(LogLevel::Error.to_string(), "error");
}
