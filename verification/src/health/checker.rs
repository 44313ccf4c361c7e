//! Judging a probe: what request to make, what an answer or a failure is
//! worth, and whether to try again.

use crate::config::types::{
    opt_text, table_clone, table_insert, table_view, ServiceConfig, ServiceConfigView,
};
use crate::error::HealthCheckError;
use crate::health::result::{HealthResult, HealthResultView, HealthStatus};
use crate::strmap::StrMap;
use crate::text::{concat2, contains, contains_text, decimal_text, u64_to_text};
use vstd::prelude::*;

verus! {

/// The standard reason phrase of an HTTP status code, where it has one.
pub uninterp spec fn reason_phrase(code: u16) -> Option<Seq<char>>;

/// Whether the HTTP library takes `method` for a method name.
pub uninterp spec fn is_method_token(method: Seq<char>) -> bool;

/// `text` with every letter in upper case.
pub uninterp spec fn uppercase_text(text: Seq<char>) -> Seq<char>;

/// `StatusCode::from_u16` and `StatusCode::canonical_reason` of the HTTP
/// library that reqwest hands on: the reason phrase registered for `code`,
/// or nothing where `code` is no status code or has no phrase. The phrase
/// depends on the code alone and is called `reason_phrase` here.
#[verifier::external_body]
fn canonical_reason(code: u16) -> (r: Option<String>)
    ensures
        opt_text(r) == reason_phrase(code),
{
    match reqwest::StatusCode::from_u16(code) {
        Ok(status) => match status.canonical_reason() {
            Some(phrase) => Some(phrase.to_string()),
            None => None,
        },
        Err(_) => None,
    }
}

/// `Method::from_str` of the HTTP library that reqwest hands on: whether
/// `method` parses as a method name. The answer depends on the text alone
/// and is called `is_method_token` here.
#[verifier::external_body]
fn parses_as_method(method: &str) -> (ok: bool)
    ensures
        ok == is_method_token(method@),
{
    method.parse::<reqwest::Method>().is_ok()
}

/// `str::to_uppercase` of std: the text with its letters in upper case,
/// called `uppercase_text` here.
#[verifier::external_body]
fn to_uppercase(text: &str) -> (r: String)
    ensures
        r@ == uppercase_text(text@),
{
    text.to_uppercase()
}

/// What a service answered, as far as the probe looks at it.
#[derive(Debug)]
pub struct ProbeResponse {
    /// The status of the answer.
    pub status_code: u16,
    /// The length that the answer announces, if it does.
    pub content_length: Option<usize>,
    /// The `Server` header of the answer, if it has one.
    pub server: Option<String>,
}

/// Why a request brought no answer, as the HTTP client tells it.
#[derive(Debug)]
pub struct TransportError {
    /// The request timed out.
    pub is_timeout: bool,
    /// The connection could not be made.
    pub is_connect: bool,
    /// The request itself was at fault.
    pub is_request: bool,
    /// The status that the error carries, if any.
    pub status: Option<u16>,
    /// The answer could not be decoded.
    pub is_decode: bool,
    /// The error in words.
    pub text: String,
}

/// The request that a probe makes.
#[derive(Debug)]
pub struct RequestPlan {
    /// The method, in upper case.
    pub method: String,
    /// The address.
    pub url: String,
    /// The headers: the shared ones, overridden by the service's own.
    pub headers: StrMap<String>,
    /// The JSON document to send, if any.
    pub body: Option<String>,
}

/// What to do after an attempt.
#[derive(Clone, Copy, Debug, PartialEq, Eq, Structural)]
pub enum RetryDecision {
    /// The outcome stands.
    Finish,
    /// Wait this many seconds and try again.
    RetryAfter { delay_secs: u64 },
}

/// The error text for an answer with an unexpected status.
pub open spec fn status_error_text(code: u16) -> Seq<char> {
    "HTTP "@ + decimal_text(code as nat) + " "@ + match reason_phrase(code) {
        Some(phrase) => phrase,
        None => "Unknown"@,
    }
}

/// The error text for a request that brought no answer. The first of these
/// that applies decides: a timeout, a refused connection, a bad request, a
/// status, an answer that could not be decoded; then what the words of the
/// error speak of; at last the words themselves.
pub open spec fn transport_error_text(e: TransportError) -> Seq<char> {
    if e.is_timeout {
        "Request timeout"@
    } else if e.is_connect {
        "Connection refused"@
    } else if e.is_request {
        "Invalid request"@
    } else if e.status is Some {
        status_error_text(e.status->0)
    } else if e.is_decode {
        "Response decode error"@
    } else if contains_text(e.text@, "dns"@) || contains_text(e.text@, "DNS"@) {
        "DNS resolution failed"@
    } else if contains_text(e.text@, "certificate"@) || contains_text(e.text@, "tls"@)
        || contains_text(e.text@, "ssl"@) {
        "SSL/TLS certificate error"@
    } else if contains_text(e.text@, "network"@) {
        "Network error"@
    } else {
        "Request failed: "@ + e.text@
    }
}

/// The metadata of an answer: its `Server` header under `server`, if any.
pub open spec fn response_metadata(server: Option<String>) -> Map<Seq<char>, Seq<char>> {
    match server {
        Some(s) => Map::empty().insert("server"@, s@),
        None => Map::empty(),
    }
}

/// What an answer is worth: `Up` where its status is expected, else `Down`
/// with the status in words. `id` and `timestamp` are those of the outcome.
pub open spec fn response_outcome(
    service: ServiceConfigView,
    response: ProbeResponse,
    response_time: u64,
    id: u128,
    timestamp: i64,
) -> HealthResultView {
    let healthy = service.expected_status_codes.contains(response.status_code);
    HealthResultView {
        id,
        service_name: service.name,
        service_url: service.url,
        timestamp,
        status: if healthy {
            HealthStatus::Up
        } else {
            HealthStatus::Down
        },
        status_code: Some(response.status_code),
        response_time,
        error_message: if healthy {
            None
        } else {
            Some(status_error_text(response.status_code))
        },
        consecutive_failures: 0,
        method: service.method,
        response_size: response.content_length,
        metadata: response_metadata(response.server),
    }
}

/// What a failure is worth: `Down` with the given error text.
pub open spec fn failure_outcome(
    service: ServiceConfigView,
    response_time: u64,
    error_message: Seq<char>,
    id: u128,
    timestamp: i64,
) -> HealthResultView {
    HealthResultView {
        id,
        service_name: service.name,
        service_url: service.url,
        timestamp,
        status: HealthStatus::Down,
        status_code: None,
        response_time,
        error_message: Some(error_message),
        consecutive_failures: 0,
        method: service.method,
        response_size: None,
        metadata: Map::empty(),
    }
}

/// Whether an attempt with this outcome is tried again: it failed, the
/// service did not answer, and attempts are left.
pub open spec fn retry_due(retry_attempts: u32, attempt: u32, result: HealthResultView) -> bool {
    result.status != HealthStatus::Up && result.status_code is None && attempt < retry_attempts
}

/// The settings of the probe executor.
#[derive(Clone, Copy, Debug, PartialEq, Eq, Structural)]
pub struct HttpHealthChecker {
    /// Seconds after which a probe is given up.
    pub default_timeout_secs: u64,
    /// How often a failed probe is tried again.
    pub retry_attempts: u32,
    /// Seconds between two attempts.
    pub retry_delay_secs: u64,
}

/// The error text for a status, `HTTP` with the code and its reason phrase.
pub fn format_status_error(code: u16) -> (s: String)
    ensures
        s@ == status_error_text(code),
{
    let digits = u64_to_text(code as u64);
    let mut s = concat2("HTTP ", digits.as_str());
    s.append(" ");
    match canonical_reason(code) {
        Some(phrase) => {
            s.append(phrase.as_str());
        },
        None => {
            s.append("Unknown");
        },
    }
    s
}

impl HttpHealthChecker {
    /// A probe executor with the given timeout, number of retries and delay
    /// between attempts.
    pub fn new(timeout_secs: u64, retry_attempts: u32, retry_delay_secs: u64) -> (r: Self)
        ensures
            r == (HttpHealthChecker {
                default_timeout_secs: timeout_secs,
                retry_attempts,
                retry_delay_secs,
            }),
    {
        HttpHealthChecker { default_timeout_secs: timeout_secs, retry_attempts, retry_delay_secs }
    }

    /// Whether `status_code` is among the expected codes.
    pub fn validate_status_code(&self, status_code: u16, expected_codes: &[u16]) -> (r: bool)
        ensures
            r == expected_codes@.contains(status_code),
    {
        let mut i: usize = 0;
        while i < expected_codes.len()
            invariant
                i <= expected_codes.len(),
                forall|j: int| 0 <= j < i ==> expected_codes@[j] != status_code,
            decreases expected_codes.len() - i,
        {
            if expected_codes[i] == status_code {
                return true;
            }
            i += 1;
        }
        false
    }

    /// Plans the request for `service`: its method in upper case, which the
    /// HTTP library must take for a method name, its address and body, and
    /// the shared headers overridden by its own. A method that the library
    /// does not take is the one error.
    pub fn build_request(&self, service: &ServiceConfig, shared_headers: &StrMap<String>) -> (r:
        Result<RequestPlan, HealthCheckError>)
        ensures
            match r {
                Ok(plan) => is_method_token(uppercase_text(service@.method)) && plan.method@
                    == uppercase_text(service@.method) && plan.url@ == service@.url && table_view(
                    plan.headers,
                ) == table_view(*shared_headers).union_prefer_right(service@.headers) && opt_text(
                    plan.body,
                ) == service@.body,
                Err(e) => !is_method_token(uppercase_text(service@.method)) && match e {
                    HealthCheckError::ConnectionError { url } => url@ == "无效的HTTP方法: "@
                        + service@.method,
                    _ => false,
                },
            },
    {
        let method = to_uppercase(service.method.as_str());
        if !parses_as_method(method.as_str()) {
            return Err(
                HealthCheckError::ConnectionError {
                    url: concat2("无效的HTTP方法: ", service.method.as_str()),
                },
            );
        }
        let headers = merge_headers(shared_headers, &service.headers);
        Ok(RequestPlan { method, url: service.url.clone(), headers, body: service.body.clone() })
    }

    /// Judges an answer that took `response_time` milliseconds.
    pub fn process_successful_response(
        &self,
        service: &ServiceConfig,
        response: &ProbeResponse,
        response_time: u64,
    ) -> (r: HealthResult)
        ensures
            r@ == response_outcome(service@, *response, response_time, r.id, r.timestamp),
    {
        let status_code = response.status_code;
        let is_healthy = self.validate_status_code(
            status_code,
            service.expected_status_codes.as_slice(),
        );
        let status = if is_healthy {
            HealthStatus::Up
        } else {
            HealthStatus::Down
        };
        let mut result = HealthResult::new(
            service.name.clone(),
            service.url.clone(),
            status,
            service.method.clone(),
        ).with_status_code(status_code).with_response_time(response_time);
        match response.content_length {
            Some(size) => {
                result = result.with_response_size(size);
            },
            None => {},
        }
        if !is_healthy {
            result = result.with_error(format_status_error(status_code));
        }
        match &response.server {
            Some(server) => {
                result = result.with_metadata("server".to_string(), server.clone());
            },
            None => {},
        }
        result
    }

    /// The outcome of a request that failed with the given error text after
    /// `response_time` milliseconds.
    pub fn create_error_result(
        &self,
        service: &ServiceConfig,
        response_time: u64,
        error_message: String,
    ) -> (r: HealthResult)
        ensures
            r@ == failure_outcome(service@, response_time, error_message@, r.id, r.timestamp),
    {
        HealthResult::new(
            service.name.clone(),
            service.url.clone(),
            HealthStatus::Down,
            service.method.clone(),
        ).with_response_time(response_time).with_error(error_message)
    }

    /// The outcome of a request that was given up after `response_time`
    /// milliseconds.
    pub fn create_timeout_result(&self, service: &ServiceConfig, response_time: u64) -> (r:
        HealthResult)
        ensures
            r@ == failure_outcome(service@, response_time, "Request timeout"@, r.id, r.timestamp),
    {
        self.create_error_result(service, response_time, "Request timeout".to_string())
    }

    /// Puts into words why a request brought no answer.
    pub fn format_request_error(&self, error: &TransportError) -> (s: String)
        ensures
            s@ == transport_error_text(*error),
    {
        if error.is_timeout {
            "Request timeout".to_string()
        } else if error.is_connect {
            "Connection refused".to_string()
        } else if error.is_request {
            "Invalid request".to_string()
        } else if error.status.is_some() {
            format_status_error(error.status.unwrap())
        } else if error.is_decode {
            "Response decode error".to_string()
        } else {
            let text = error.text.as_str();
            if contains(text, "dns") || contains(text, "DNS") {
                "DNS resolution failed".to_string()
            } else if contains(text, "certificate") || contains(text, "tls") || contains(
                text,
                "ssl",
            ) {
                "SSL/TLS certificate error".to_string()
            } else if contains(text, "network") {
                "Network error".to_string()
            } else {
                concat2("Request failed: ", text)
            }
        }
    }

    /// Decides what follows the attempt number `attempt` (counted from 0)
    /// with the given outcome. A healthy outcome stands, and so does one in
    /// which the service answered, whatever its status; a request without an
    /// answer is tried again after the delay, as long as attempts are left.
    pub fn after_attempt(&self, attempt: u32, result: &HealthResult) -> (d: RetryDecision)
        ensures
            d == if retry_due(self.retry_attempts, attempt, result@) {
                RetryDecision::RetryAfter { delay_secs: self.retry_delay_secs }
            } else {
                RetryDecision::Finish
            },
    {
        if !result.status.is_healthy() && result.status_code.is_none() && attempt
            < self.retry_attempts {
            RetryDecision::RetryAfter { delay_secs: self.retry_delay_secs }
        } else {
            RetryDecision::Finish
        }
    }
}

/// The entries of the first `n` positions of a table.
pub open spec fn table_prefix(t: StrMap<String>, n: int) -> Map<Seq<char>, Seq<char>>
    decreases n,
{
    if n <= 0 {
        Map::empty()
    } else {
        table_prefix(t, n - 1).insert(t.keys()[n - 1], t.vals()[n - 1]@)
    }
}

/// The first `n` positions of a table hold its entries up to there.
pub proof fn lemma_table_prefix(t: StrMap<String>, n: int, k: Seq<char>)
    requires
        t.wf(),
        0 <= n <= t.keys().len(),
    ensures
        table_prefix(t, n).dom().contains(k) <==> exists|j: int|
            0 <= j < n && #[trigger] t.keys()[j] == k,
        table_prefix(t, n).dom().contains(k) ==> table_prefix(t, n)[k] == t.value_of(k)@,
    decreases n,
{
    if n > 0 {
        lemma_table_prefix(t, n - 1, k);
        t.lemma_position(n - 1);
        if table_prefix(t, n - 1).dom().contains(k) {
            let j = choose|j: int| 0 <= j < n - 1 && #[trigger] t.keys()[j] == k;
            assert(t.keys()[j] == k);
        }
        if k == t.keys()[n - 1] {
            assert(t.keys()[n - 1] == k);
        }
    }
}

/// The shared headers overridden by the service's own.
pub fn merge_headers(shared: &StrMap<String>, own: &StrMap<String>) -> (merged: StrMap<String>)
    ensures
        table_view(merged) == table_view(*shared).union_prefer_right(table_view(*own)),
{
    let mut merged = table_clone(shared);
    let n = own.len();
    let mut i: usize = 0;
    assert(table_view(merged) =~= table_view(*shared).union_prefer_right(table_prefix(*own, 0)));
    while i < n
        invariant
            i <= n,
            n == own.keys().len(),
            n == own.vals().len(),
            own.wf(),
            table_view(merged) == table_view(*shared).union_prefer_right(
                table_prefix(*own, i as int),
            ),
        decreases n - i,
    {
        let key = own.key_at(i).clone();
        let value = own.value_at(i).clone();
        table_insert(&mut merged, key, value);
        i += 1;
        assert(table_view(merged) =~= table_view(*shared).union_prefer_right(
            table_prefix(*own, i as int),
        ));
    }
    proof {
        assert forall|k: Seq<char>| #[trigger]
            table_prefix(*own, n as int).dom().contains(k) == table_view(*own).dom().contains(
                k,
            ) by {
            lemma_table_prefix(*own, n as int, k);
            if own.has(k) {
                let j = own.keys().index_of(k);
                assert(own.keys()[j] == k);
            }
        }
        assert forall|k: Seq<char>| #[trigger]
            table_prefix(*own, n as int).dom().contains(k) implies table_prefix(
            *own,
            n as int,
        )[k] == table_view(*own)[k] by {
            lemma_table_prefix(*own, n as int, k);
        }
        assert(table_prefix(*own, n as int) =~= table_view(*own));
    }
    merged
}

} // verus!
