use service_vitals::config::types::ServiceConfig;
use service_vitals::error::HealthCheckError;
use service_vitals::health::checker::{
    format_status_error, merge_headers, HttpHealthChecker, ProbeResponse, RetryDecision,
    TransportError,
};
use service_vitals::health::result::{HealthResult, HealthStatus};
use service_vitals::strmap::StrMap;

fn create_test_service(url: &str, expected_codes: Vec<u16>) -> ServiceConfig {
    ServiceConfig {
        name: "Test Service".to_string(),
        url: url.to_string(),
        method: "GET".to_string(),
        expected_status_codes: expected_codes,
        feishu_webhook_url: None,
        failure_threshold: 1,
        check_interval_seconds: None,
        enabled: true,
        description: Some("Test service".to_string()),
        headers: StrMap::new(),
        body: None,
        alert_cooldown_secs: 60,
    }
}

fn transport(text: &str) -> TransportError {
    TransportError {
        is_timeout: false,
        is_connect: false,
        is_request: false,
        status: None,
        is_decode: false,
        text: text.to_string(),
    }
}

#[test]
fn test_validate_status_code() {
    let checker = HttpHealthChecker::new(10, 0, 1);

    assert!(checker.validate_status_code(200, &[200, 201, 202]));
    assert!(checker.validate_status_code(201, &[200, 201, 202]));
    assert!(!checker.validate_status_code(404, &[200, 201, 202]));
    assert!(!checker.validate_status_code(500, &[200]));
    assert!(!checker.validate_status_code(200, &[]));
}

#[test]
fn test_status_code_validation() {
    let checker = HttpHealthChecker::new(10, 0, 1);
    let service = create_test_service("https://example.org/status/404", vec![200]);
    let response = ProbeResponse { status_code: 404, content_length: None, server: None };
    let health_result = checker.process_successful_response(&service, &response, 35);
    assert_eq!(health_result.status, HealthStatus::Down);
    assert_eq!(health_result.status_code, Some(404));
    assert_eq!(health_result.error_message, Some("HTTP 404 Not Found".to_string()));
    assert_eq!(health_result.response_time_ms(), 35);
    assert_eq!(health_result.response_size, None);
    assert!(health_result.metadata.is_empty());
}

#[test]
fn test_successful_response() {
    let checker = HttpHealthChecker::new(10, 0, 1);
    let service = create_test_service("https://example.org/status/200", vec![200, 204]);
    let response = ProbeResponse {
        status_code: 204,
        content_length: Some(1024),
        server: Some("nginx".to_string()),
    };
    let r = checker.process_successful_response(&service, &response, 7);
    assert_eq!(r.status, HealthStatus::Up);
    assert_eq!(r.service_name, "Test Service");
    assert_eq!(r.service_url, "https://example.org/status/200");
    assert_eq!(r.method, "GET");
    assert_eq!(r.status_code, Some(204));
    assert_eq!(r.error_message, None);
    assert_eq!(r.response_size, Some(1024));
    assert_eq!(r.metadata.get("server"), Some(&"nginx".to_string()));
    assert_eq!(r.consecutive_failures, 0);
}

#[test]
fn test_format_status_error() {
    assert_eq!(format_status_error(500), "HTTP 500 Internal Server Error");
    assert_eq!(format_status_error(200), "HTTP 200 OK");
    assert_eq!(format_status_error(599), "HTTP 599 Unknown");
    assert_eq!(format_status_error(42), "HTTP 42 Unknown");
    assert_eq!(format_status_error(1000), "HTTP 1000 Unknown");
}

#[test]
fn test_error_message_formatting() {
    let checker = HttpHealthChecker::new(1, 0, 1);
    let mut e = transport("anything");
    e.is_timeout = true;
    e.is_connect = true;
    assert_eq!(checker.format_request_error(&e), "Request timeout");
    e.is_timeout = false;
    e.is_request = true;
    assert_eq!(checker.format_request_error(&e), "Connection refused");
    e.is_connect = false;
    e.status = Some(502);
    assert_eq!(checker.format_request_error(&e), "Invalid request");
    e.is_request = false;
    e.is_decode = true;
    assert_eq!(checker.format_request_error(&e), "HTTP 502 Bad Gateway");
    e.status = None;
    assert_eq!(checker.format_request_error(&e), "Response decode error");

    assert_eq!(checker.format_request_error(&transport("dns error")), "DNS resolution failed");
    assert_eq!(checker.format_request_error(&transport("no DNS")), "DNS resolution failed");
    assert_eq!(
        checker.format_request_error(&transport("bad certificate")),
        "SSL/TLS certificate error"
    );
    assert_eq!(checker.format_request_error(&transport("tls handshake")), "SSL/TLS certificate error");
    assert_eq!(checker.format_request_error(&transport("ssl")), "SSL/TLS certificate error");
    assert_eq!(checker.format_request_error(&transport("network unreachable")), "Network error");
    assert_eq!(checker.format_request_error(&transport("boom")), "Request failed: boom");
    assert_eq!(checker.format_request_error(&transport("Dns")), "Request failed: Dns");
}

#[test]
fn test_failure_results() {
    let checker = HttpHealthChecker::new(1, 0, 1);
    let service = create_test_service("http://localhost:1", vec![200]);
    let r = checker.create_error_result(&service, 12, "Connection refused".to_string());
    assert_eq!(r.status, HealthStatus::Down);
    assert_eq!(r.status_code, None);
    assert_eq!(r.response_time, 12);
    assert_eq!(r.error_message, Some("Connection refused".to_string()));
    let t = checker.create_timeout_result(&service, 1000);
    assert_eq!(t.status, HealthStatus::Down);
    assert_eq!(t.error_message, Some("Request timeout".to_string()));
    assert_eq!(t.response_time, 1000);
}

#[test]
fn test_retry_decision() {
    let checker = HttpHealthChecker::new(10, 2, 5);
    let base = |status| HealthResult::at(1, 1, "s".to_string(), "u".to_string(), status, "GET".to_string());
    let failed = base(HealthStatus::Down).with_error("Connection refused".to_string());
    assert_eq!(checker.after_attempt(0, &failed), RetryDecision::RetryAfter { delay_secs: 5 });
    assert_eq!(checker.after_attempt(1, &failed), RetryDecision::RetryAfter { delay_secs: 5 });
    assert_eq!(checker.after_attempt(2, &failed), RetryDecision::Finish);
    assert_eq!(checker.after_attempt(3, &failed), RetryDecision::Finish);
    // The service answered: a status mismatch is not tried again.
    let mismatch = base(HealthStatus::Down).with_status_code(500);
    assert_eq!(checker.after_attempt(0, &mismatch), RetryDecision::Finish);
    assert_eq!(checker.after_attempt(0, &base(HealthStatus::Up)), RetryDecision::Finish);
    let none = HttpHealthChecker::new(10, 0, 5);
    assert_eq!(none.after_attempt(0, &failed), RetryDecision::Finish);
}

#[test]
fn test_build_request() {
    let checker = HttpHealthChecker::new(10, 0, 1);
    let mut service = create_test_service("https://example.org/post", vec![200]);
    service.method = "post".to_string();
    service.body = Some("{\"test\":\"data\"}".to_string());
    service.headers.insert("Content-Type".to_string(), "application/json".to_string());
    service.headers.insert("X-Env".to_string(), "own".to_string());
    let mut shared = StrMap::new();
    shared.insert("X-Env".to_string(), "shared".to_string());
    shared.insert("User-Agent".to_string(), "sv".to_string());

    let plan = checker.build_request(&service, &shared).unwrap();
    assert_eq!(plan.method, "POST");
    assert_eq!(plan.url, "https://example.org/post");
    assert_eq!(plan.body, Some("{\"test\":\"data\"}".to_string()));
    assert_eq!(plan.headers.len(), 3);
    assert_eq!(plan.headers.get("X-Env"), Some(&"own".to_string()));
    assert_eq!(plan.headers.get("User-Agent"), Some(&"sv".to_string()));
    assert_eq!(plan.headers.get("Content-Type"), Some(&"application/json".to_string()));
}

#[test]
fn test_build_request_rejects_bad_method() {
    let checker = HttpHealthChecker::new(10, 0, 1);
    let mut service = create_test_service("https://example.org", vec![200]);
    service.method = "GE T".to_string();
    match checker.build_request(&service, &StrMap::new()) {
        Err(HealthCheckError::ConnectionError { url }) => assert_eq!(url, "无效的HTTP方法: GE T"),
        other => panic!("unexpected: {:?}", other),
    }
    service.method = String::new();
    assert!(checker.build_request(&service, &StrMap::new()).is_err());
}

#[test]
fn test_merge_headers() {
    let mut shared = StrMap::new();
    shared.insert("a".to_string(), "1".to_string());
    shared.insert("b".to_string(), "2".to_string());
    let mut own = StrMap::new();
    own.insert("b".to_string(), "3".to_string());
    own.insert("c".to_string(), "4".to_string());
    let merged = merge_headers(&shared, &own);
    assert_eq!(merged.len(), 3);
    assert_eq!(merged.get("a"), Some(&"1".to_string()));
    assert_eq!(merged.get("b"), Some(&"3".to_string()));
    assert_eq!(merged.get("c"), Some(&"4".to_string()));
    assert_eq!(merge_headers(&shared, &StrMap::new()).len(), 2);
}
