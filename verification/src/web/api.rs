//! What the API answers with.

use crate::config::types::GlobalConfig;
use crate::health::result::HealthStatus;
use crate::status::{OverallStatus, ServiceStatus, ServiceStatusView};
use crate::config::types::opt_text;
use vstd::prelude::*;

verus! {

/// The global settings with everything secret taken out.
#[derive(Debug)]
pub struct SanitizedGlobalConfig {
    /// Seconds between two probes.
    pub check_interval_seconds: u64,
    /// Seconds after which a probe is given up.
    pub request_timeout_seconds: u64,
    /// How many probes may be in flight at once.
    pub max_concurrent_checks: usize,
    /// How often a failed probe is tried again.
    pub retry_attempts: u32,
    /// Seconds between two attempts.
    pub retry_delay_seconds: u64,
    /// The log level.
    pub log_level: String,
    /// Whether a default webhook is configured.
    pub has_feishu_webhook: bool,
    /// Whether a message template is configured.
    pub has_message_template: bool,
}

impl SanitizedGlobalConfig {
    /// The settings of `config` that may be shown: the webhook and the
    /// template are reduced to whether they are set.
    pub fn from(config: &GlobalConfig) -> (r: Self)
        ensures
            r.check_interval_seconds == config@.check_interval_seconds,
            r.request_timeout_seconds == config@.request_timeout_seconds,
            r.max_concurrent_checks == config@.max_concurrent_checks,
            r.retry_attempts == config@.retry_attempts,
            r.retry_delay_seconds == config@.retry_delay_seconds,
            r.log_level@ == config@.log_level,
            r.has_feishu_webhook == (config@.default_feishu_webhook_url is Some),
            r.has_message_template == (config@.message_template is Some),
    {
        SanitizedGlobalConfig {
            check_interval_seconds: config.check_interval_seconds,
            request_timeout_seconds: config.request_timeout_seconds,
            max_concurrent_checks: config.max_concurrent_checks,
            retry_attempts: config.retry_attempts,
            retry_delay_seconds: config.retry_delay_seconds,
            log_level: config.log_level.clone(),
            has_feishu_webhook: config.default_feishu_webhook_url.is_some(),
            has_message_template: config.message_template.is_some(),
        }
    }
}

/// What the API tells of the configuration.
#[derive(Debug)]
pub struct ConfigResponse {
    /// The global settings that may be shown.
    pub global: SanitizedGlobalConfig,
    /// How many services are configured.
    pub service_count: usize,
    /// The configuration file in force.
    pub config_path: String,
}

/// What the API tells of one service.
#[derive(Debug)]
pub struct ServiceStatusResponse {
    /// The name of the service.
    pub name: String,
    /// The name of its status.
    pub status: String,
    /// Whether it is up.
    pub healthy: bool,
    /// When it was last probed.
    pub last_check: Option<i64>,
    /// The HTTP status of the last answer.
    pub status_code: Option<u16>,
    /// How long the last probe took, in milliseconds.
    pub response_time_ms: Option<u64>,
    /// How many probes have failed in a row.
    pub consecutive_failures: u32,
    /// What went wrong, if anything did.
    pub error_message: Option<String>,
    /// Whether the service is probed at all.
    pub enabled: bool,
}

/// The name of a status as the API writes it.
pub open spec fn status_name(status: HealthStatus) -> Seq<char> {
    match status {
        HealthStatus::Up => "Up"@,
        HealthStatus::Down => "Down"@,
        HealthStatus::Unknown => "Unknown"@,
        HealthStatus::Degraded => "Degraded"@,
    }
}

/// What a `ServiceStatusResponse` says.
pub struct ServiceStatusResponseView {
    pub name: Seq<char>,
    pub status: Seq<char>,
    pub healthy: bool,
    pub last_check: Option<i64>,
    pub status_code: Option<u16>,
    pub response_time_ms: Option<u64>,
    pub consecutive_failures: u32,
    pub error_message: Option<Seq<char>>,
    pub enabled: bool,
}

impl View for ServiceStatusResponse {
    type V = ServiceStatusResponseView;

    open spec fn view(&self) -> ServiceStatusResponseView {
        ServiceStatusResponseView {
            name: self.name@,
            status: self.status@,
            healthy: self.healthy,
            last_check: self.last_check,
            status_code: self.status_code,
            response_time_ms: self.response_time_ms,
            consecutive_failures: self.consecutive_failures,
            error_message: opt_text(self.error_message),
            enabled: self.enabled,
        }
    }
}

/// What the API tells of a service: what the registry knows of it, with its
/// status by name and whether that is `Up`. The address is left out.
pub open spec fn response_of(s: ServiceStatusView) -> ServiceStatusResponseView {
    ServiceStatusResponseView {
        name: s.name,
        status: status_name(s.status),
        healthy: s.status == HealthStatus::Up,
        last_check: s.last_check,
        status_code: s.status_code,
        response_time_ms: s.response_time_ms,
        consecutive_failures: s.consecutive_failures,
        error_message: s.error_message,
        enabled: s.enabled,
    }
}

impl ServiceStatusResponse {
    /// What the API tells of a service with the given status.
    pub fn from(status: ServiceStatus) -> (r: Self)
        ensures
            r@ == response_of(status@),
    {
        let name = match status.status {
            HealthStatus::Up => "Up".to_string(),
            HealthStatus::Down => "Down".to_string(),
            HealthStatus::Unknown => "Unknown".to_string(),
            HealthStatus::Degraded => "Degraded".to_string(),
        };
        ServiceStatusResponse {
            name: status.name,
            status: name,
            healthy: status.status.is_healthy(),
            last_check: status.last_check,
            status_code: status.status_code,
            response_time_ms: status.response_time_ms,
            consecutive_failures: status.consecutive_failures,
            error_message: status.error_message,
            enabled: status.enabled,
        }
    }
}

/// What the API tells of all services.
#[derive(Debug)]
pub struct OverallStatusResponse {
    /// When the monitor started.
    pub start_time: i64,
    /// How many services are known.
    pub total_services: usize,
    /// How many are enabled and up.
    pub healthy_services: usize,
    /// How many are enabled, probed and not up.
    pub unhealthy_services: usize,
    /// How many are disabled.
    pub disabled_services: usize,
    /// When the configuration was last reloaded.
    pub last_config_reload: Option<i64>,
    /// What is told of each service.
    pub services: Vec<ServiceStatusResponse>,
}

impl OverallStatusResponse {
    /// What the API tells of a snapshot: its totals as they are, and each
    /// service in order.
    pub fn from(status: OverallStatus) -> (r: Self)
        ensures
            r.start_time == status.start_time,
            r.total_services == status.total_services,
            r.healthy_services == status.healthy_services,
            r.unhealthy_services == status.unhealthy_services,
            r.disabled_services == status.disabled_services,
            r.last_config_reload == status.last_config_reload,
            r.services@.len() == status.services@.len(),
            forall|i: int|
                0 <= i < r.services@.len() ==> (#[trigger] r.services@[i])@ == response_of(
                    status.services@[i]@,
                ),
    {
        let mut services: Vec<ServiceStatusResponse> = Vec::new();
        let mut i: usize = 0;
        while i < status.services.len()
            invariant
                i <= status.services.len(),
                services@.len() == i,
                forall|j: int|
                    0 <= j < i ==> (#[trigger] services@[j])@ == response_of(
                        status.services@[j]@,
                    ),
            decreases status.services.len() - i,
        {
            services.push(ServiceStatusResponse::from(status.services[i].clone()));
            i += 1;
        }
        OverallStatusResponse {
            start_time: status.start_time,
            total_services: status.total_services,
            healthy_services: status.healthy_services,
            unhealthy_services: status.unhealthy_services,
            disabled_services: status.disabled_services,
            last_config_reload: status.last_config_reload,
            services,
        }
    }
}

} // verus!
