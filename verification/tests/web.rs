use service_vitals::config::types::GlobalConfig;
use service_vitals::health::result::HealthStatus;
use service_vitals::status::ServiceStatus;
use service_vitals::strmap::StrMap;
use service_vitals::web::api::{SanitizedGlobalConfig, ServiceStatusResponse};
use service_vitals::web::auth::{generate_api_key, get_api_key_from_query, validate_api_key};
use service_vitals::web::{count_statuses, is_problem, update_status, WebError, WebServiceStatus};

#[test]
fn test_service_status_response_conversion() {
    let service_status = ServiceStatus {
        name: "test-service".to_string(),
        url: "http://example.com".to_string(),
        status: HealthStatus::Up,
        last_check: Some(1_700_000_000_000),
        status_code: Some(200),
        response_time_ms: Some(150),
        consecutive_failures: 0,
        error_message: None,
        enabled: true,
    };

    let response = ServiceStatusResponse::from(service_status);
    assert_eq!(response.name, "test-service");
    assert!(response.healthy);
    assert_eq!(response.status_code, Some(200));
    assert_eq!(response.status, "Up");
}

#[test]
fn test_sanitized_global_config() {
    let global_config = GlobalConfig {
        check_interval_seconds: 30,
        request_timeout_seconds: 5,
        max_concurrent_checks: 100,
        retry_attempts: 2,
        retry_delay_seconds: 3,
        log_level: "debug".to_string(),
        default_feishu_webhook_url: Some("https://example.com/webhook".to_string()),
        message_template: Some("Test template".to_string()),
        headers: StrMap::new(),
        web: None,
    };

    let sanitized = SanitizedGlobalConfig::from(&global_config);
    assert_eq!(sanitized.check_interval_seconds, 30);
    assert!(sanitized.has_feishu_webhook);
    assert!(sanitized.has_message_template);
    assert_eq!(sanitized.log_level, "debug");
    assert_eq!(sanitized.max_concurrent_checks, 100);
}

#[test]
fn test_get_api_key_from_query() {
    let query = "param1=value1&api_key=test-key&param2=value2";
    let api_key = get_api_key_from_query(query);
    assert_eq!(api_key, Some("test-key".to_string()));
}

#[test]
fn test_get_api_key_from_query_encoded() {
    let query = "api_key=test%2Dkey";
    let api_key = get_api_key_from_query(query);
    assert_eq!(api_key, Some("test-key".to_string()));
}

#[test]
fn test_get_api_key_from_query_not_found() {
    let query = "param1=value1&param2=value2";
    let api_key = get_api_key_from_query(query);
    assert_eq!(api_key, None);
}

#[test]
fn test_get_api_key_from_query_edges() {
    assert_eq!(get_api_key_from_query(""), None);
    assert_eq!(get_api_key_from_query("api_key"), None);
    assert_eq!(get_api_key_from_query("api_key="), Some(String::new()));
    assert_eq!(get_api_key_from_query("xapi_key=1&api_key=a=b&api_key=c"), Some("a=b".to_string()));
    assert_eq!(get_api_key_from_query("a=1&&api_key=k&"), Some("k".to_string()));
    assert_eq!(get_api_key_from_query("api_key=%FF&api_key=ok"), None);
}

#[test]
fn test_generate_api_key() {
    let key1 = generate_api_key();
    let key2 = generate_api_key();

    assert_eq!(key1.len(), 32);
    assert_eq!(key2.len(), 32);
    assert_ne!(key1, key2);
    assert!(key1.chars().all(|c| c.is_alphanumeric()));
    assert!(validate_api_key(&key1));
}

#[test]
fn test_validate_api_key() {
    assert!(validate_api_key("abcdefghijklmnop1234567890"));
    assert!(!validate_api_key("short"));
    assert!(!validate_api_key("contains-special-chars!"));
    assert!(validate_api_key("1234567890abcdef"));
    assert!(!validate_api_key("1234567890abcde"));
    assert!(!validate_api_key("1234567890abcde_"));
}

#[test]
fn test_web_error_messages() {
    assert_eq!(WebError::PortConflict { port: 8080 }.to_string(), "端口冲突: 端口 8080 已被占用");
    assert_eq!(
        WebError::TemplateRenderError { message: "x".to_string() }.to_string(),
        "模板渲染失败: x"
    );
    assert_eq!(
        WebError::ServerStartError { message: "y".to_string() }.to_string(),
        "服务器启动失败: y"
    );
}

fn status(name: &str, url: &str, s: HealthStatus, error: Option<&str>) -> ServiceStatus {
    ServiceStatus {
        name: name.to_string(),
        url: url.to_string(),
        status: s,
        last_check: Some(1),
        status_code: Some(500),
        response_time_ms: Some(150),
        consecutive_failures: 1,
        error_message: error.map(|e| e.to_string()),
        enabled: true,
    }
}

#[test]
fn test_web_status_update() {
    let up = update_status(None, &status("s", "https://example.com", HealthStatus::Up, Some("old")), 42);
    assert_eq!(up.name, "s");
    assert_eq!(up.status, "Online");
    assert_eq!(up.response_time_ms, Some(150));
    assert_eq!(up.last_check, Some(42));
    assert!(up.error_message.is_none());

    let down = update_status(
        Some(&up),
        &status("s", "", HealthStatus::Down, Some("Internal Server Error")),
        43,
    );
    assert_eq!(down.status, "Offline");
    assert_eq!(down.url, "https://example.com");
    assert_eq!(down.error_message, Some("Internal Server Error".to_string()));

    let degraded = update_status(Some(&down), &status("s", "http://n", HealthStatus::Degraded, None), 44);
    assert_eq!(degraded.status, "Offline");
    assert_eq!(degraded.url, "http://n");

    let unknown = update_status(
        None,
        &status("u", "http://u", HealthStatus::Unknown, Some("DNS resolution failed")),
        45,
    );
    assert_eq!(unknown.status, "Unknown");
    assert_eq!(unknown.error_message, Some("DNS resolution failed".to_string()));
}

fn shown(word: &str) -> WebServiceStatus {
    WebServiceStatus {
        name: "n".to_string(),
        url: "u".to_string(),
        status: word.to_string(),
        response_time_ms: None,
        last_check: None,
        error_message: None,
    }
}

#[test]
fn test_web_status_counts() {
    let services = vec![shown("Online"), shown("Online"), shown("Offline"), shown("Unknown"), shown("?")];
    let counts = count_statuses(&services);
    assert_eq!(counts.total, 5);
    assert_eq!(counts.online, 2);
    assert_eq!(counts.offline, 1);
    assert_eq!(counts.unknown, 1);
    assert!(!is_problem(&services[0]));
    assert!(is_problem(&services[2]));
    assert!(is_problem(&services[3]));
    assert!(!is_problem(&services[4]));
}
