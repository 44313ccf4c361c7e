//! The outcome of one probe.

use crate::config::types::{opt_text, table_clone, table_insert, table_view};
use crate::strmap::StrMap;
use vstd::prelude::*;

verus! {

/// How a service is doing.
#[derive(Clone, Copy, Debug, PartialEq, Eq, Structural)]
pub enum HealthStatus {
    /// The service answered as expected.
    Up,
    /// The service failed its probe.
    Down,
    /// The service has not been probed yet.
    Unknown,
    /// The service answers, but poorly.
    Degraded,
}

impl HealthStatus {
    /// Whether the status is `Up`.
    pub fn is_healthy(&self) -> (r: bool)
        ensures
            r == (*self == HealthStatus::Up),
    {
        matches!(self, HealthStatus::Up)
    }

    /// Whether the status calls for an alert: `Down` or `Degraded`.
    pub fn needs_alert(&self) -> (r: bool)
        ensures
            r == (*self == HealthStatus::Down || *self == HealthStatus::Degraded),
    {
        matches!(self, HealthStatus::Down | HealthStatus::Degraded)
    }

    /// The word shown for the status.
    pub open spec fn label(self) -> Seq<char> {
        match self {
            HealthStatus::Up => "正常"@,
            HealthStatus::Down => "异常"@,
            HealthStatus::Unknown => "未知"@,
            HealthStatus::Degraded => "降级"@,
        }
    }

    /// The word shown for the status.
    pub fn to_string(&self) -> (s: String)
        ensures
            s@ == self.label(),
    {
        match self {
            HealthStatus::Up => "正常".to_string(),
            HealthStatus::Down => "异常".to_string(),
            HealthStatus::Unknown => "未知".to_string(),
            HealthStatus::Degraded => "降级".to_string(),
        }
    }
}

/// `Uuid::new_v4` of the uuid crate, as a 128-bit number. The identifier is
/// drawn at random, so nothing is promised of it.
#[verifier::external_body]
fn fresh_probe_id() -> (id: u128) {
    uuid::Uuid::new_v4().as_u128()
}

/// `Utc::now` of the chrono crate, as milliseconds since the Unix epoch. It
/// reads the clock, so nothing is promised of it.
#[verifier::external_body]
pub(crate) fn wall_clock_millis() -> (t: i64) {
    chrono::Utc::now().timestamp_millis()
}

/// The outcome of one probe.
#[derive(Debug)]
pub struct HealthResult {
    /// An identifier drawn afresh for every probe.
    pub id: u128,
    /// The name of the probed service.
    pub service_name: String,
    /// The address that was probed.
    pub service_url: String,
    /// When the outcome was recorded, in milliseconds since the Unix epoch.
    pub timestamp: i64,
    /// How the service is doing.
    pub status: HealthStatus,
    /// The HTTP status the service answered with, if it answered.
    pub status_code: Option<u16>,
    /// How long the last attempt took, in milliseconds.
    pub response_time: u64,
    /// What went wrong, if anything did.
    pub error_message: Option<String>,
    /// How many probes of the service have failed in a row.
    pub consecutive_failures: u32,
    /// The HTTP method of the probe.
    pub method: String,
    /// The size of the answer in bytes, where the service told it.
    pub response_size: Option<usize>,
    /// Whatever else is worth keeping, by name.
    pub metadata: StrMap<String>,
}

/// What a `HealthResult` says.
pub struct HealthResultView {
    pub id: u128,
    pub service_name: Seq<char>,
    pub service_url: Seq<char>,
    pub timestamp: i64,
    pub status: HealthStatus,
    pub status_code: Option<u16>,
    pub response_time: u64,
    pub error_message: Option<Seq<char>>,
    pub consecutive_failures: u32,
    pub method: Seq<char>,
    pub response_size: Option<usize>,
    pub metadata: Map<Seq<char>, Seq<char>>,
}

impl View for HealthResult {
    type V = HealthResultView;

    open spec fn view(&self) -> HealthResultView {
        HealthResultView {
            id: self.id,
            service_name: self.service_name@,
            service_url: self.service_url@,
            timestamp: self.timestamp,
            status: self.status,
            status_code: self.status_code,
            response_time: self.response_time,
            error_message: opt_text(self.error_message),
            consecutive_failures: self.consecutive_failures,
            method: self.method@,
            response_size: self.response_size,
            metadata: table_view(self.metadata),
        }
    }
}

impl HealthResult {
    /// An outcome recorded at `timestamp` under the identifier `id`, with
    /// nothing measured yet.
    pub fn at(
        id: u128,
        timestamp: i64,
        service_name: String,
        service_url: String,
        status: HealthStatus,
        method: String,
    ) -> (r: Self)
        ensures
            r@ == (HealthResultView {
                id,
                service_name: service_name@,
                service_url: service_url@,
                timestamp,
                status,
                status_code: None,
                response_time: 0,
                error_message: None,
                consecutive_failures: 0,
                method: method@,
                response_size: None,
                metadata: Map::empty(),
            }),
    {
        let r = HealthResult {
            id,
            service_name,
            service_url,
            timestamp,
            status,
            status_code: None,
            response_time: 0,
            error_message: None,
            consecutive_failures: 0,
            method,
            response_size: None,
            metadata: StrMap::new(),
        };
        assert(r@.metadata =~= Map::empty());
        r
    }

    /// An outcome recorded now under a fresh identifier, with nothing
    /// measured yet. The identifier and the time come from outside; all else
    /// is as `at` says.
    pub fn new(service_name: String, service_url: String, status: HealthStatus, method: String) -> (r:
        Self)
        ensures
            r@ == (HealthResultView {
                id: r.id,
                service_name: service_name@,
                service_url: service_url@,
                timestamp: r.timestamp,
                status,
                status_code: None,
                response_time: 0,
                error_message: None,
                consecutive_failures: 0,
                method: method@,
                response_size: None,
                metadata: Map::empty(),
            }),
    {
        let id = fresh_probe_id();
        let timestamp = wall_clock_millis();
        HealthResult::at(id, timestamp, service_name, service_url, status, method)
    }

    /// The same outcome with the HTTP status set.
    pub fn with_status_code(self, status_code: u16) -> (r: Self)
        ensures
            r@ == (HealthResultView { status_code: Some(status_code), ..self@ }),
    {
        let mut r = self;
        r.status_code = Some(status_code);
        r
    }

    /// The same outcome with the elapsed milliseconds set.
    pub fn with_response_time(self, response_time: u64) -> (r: Self)
        ensures
            r@ == (HealthResultView { response_time, ..self@ }),
    {
        let mut r = self;
        r.response_time = response_time;
        r
    }

    /// The same outcome with the error text set.
    pub fn with_error(self, error_message: String) -> (r: Self)
        ensures
            r@ == (HealthResultView { error_message: Some(error_message@), ..self@ }),
    {
        let mut r = self;
        r.error_message = Some(error_message);
        r
    }

    /// The same outcome with the number of failures in a row set.
    pub fn with_consecutive_failures(self, consecutive_failures: u32) -> (r: Self)
        ensures
            r@ == (HealthResultView { consecutive_failures, ..self@ }),
    {
        let mut r = self;
        r.consecutive_failures = consecutive_failures;
        r
    }

    /// The same outcome with the size of the answer set.
    pub fn with_response_size(self, response_size: usize) -> (r: Self)
        ensures
            r@ == (HealthResultView { response_size: Some(response_size), ..self@ }),
    {
        let mut r = self;
        r.response_size = Some(response_size);
        r
    }

    /// The same outcome with `value` kept under `key`.
    pub fn with_metadata(self, key: String, value: String) -> (r: Self)
        ensures
            r@ == (HealthResultView { metadata: self@.metadata.insert(key@, value@), ..self@ }),
    {
        let mut r = self;
        table_insert(&mut r.metadata, key, value);
        r
    }

    /// The elapsed time of the last attempt, in milliseconds.
    pub fn response_time_ms(&self) -> (ms: u64)
        ensures
            ms == self.response_time,
    {
        self.response_time
    }

    /// Whether the outcome calls for a notification under `failure_threshold`:
    /// the status needs an alert and the failures in a row have reached the
    /// threshold.
    pub fn should_notify(&self, failure_threshold: u32) -> (r: bool)
        ensures
            r == ((self.status == HealthStatus::Down || self.status == HealthStatus::Degraded)
                && self.consecutive_failures >= failure_threshold),
    {
        self.status.needs_alert() && self.consecutive_failures >= failure_threshold
    }
}

impl Clone for HealthResult {
    fn clone(&self) -> (r: Self)
        ensures
            r@ == self@,
    {
        HealthResult {
            id: self.id,
            service_name: self.service_name.clone(),
            service_url: self.service_url.clone(),
            timestamp: self.timestamp,
            status: self.status,
            status_code: self.status_code,
            response_time: self.response_time,
            error_message: self.error_message.clone(),
            consecutive_failures: self.consecutive_failures,
            method: self.method.clone(),
            response_size: self.response_size,
            metadata: table_clone(&self.metadata),
        }
    }
}

} // verus!
