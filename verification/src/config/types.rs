//! The configuration model: global settings, the monitored services, and the
//! structural equality that change detection rests on.

use crate::strmap::{lemma_insert_keys, lemma_insert_value, StrMap};
use crate::text::str_equal;
use vstd::prelude::*;
use vstd::std_specs::cmp::PartialEqSpecImpl;

verus! {

/// The characters of an optional string.
pub open spec fn opt_text(o: Option<String>) -> Option<Seq<char>> {
    match o {
        Some(s) => Some(s@),
        None => None,
    }
}

/// A string-to-string table as a mathematical map of character sequences.
pub open spec fn table_view(t: StrMap<String>) -> Map<Seq<char>, Seq<char>> {
    Map::new(|k: Seq<char>| t.has(k), |k: Seq<char>| t.value_of(k)@)
}

/// Whether two optional strings hold the same characters.
pub fn opt_string_eq(a: &Option<String>, b: &Option<String>) -> (r: bool)
    ensures
        r == (opt_text(*a) == opt_text(*b)),
{
    match (a, b) {
        (Some(x), Some(y)) => str_equal(x.as_str(), y.as_str()),
        (None, None) => true,
        _ => false,
    }
}

/// Whether every entry of `a` is in `b` with the same value.
fn table_within(a: &StrMap<String>, b: &StrMap<String>) -> (r: bool)
    ensures
        r == (forall|k: Seq<char>| #[trigger]
            a.has(k) ==> b.has(k) && a.value_of(k)@ == b.value_of(k)@),
{
    let n = a.len();
    let mut i: usize = 0;
    while i < n
        invariant
            i <= n,
            n == a.keys().len(),
            n == a.vals().len(),
            a.wf(),
            forall|j: int|
                0 <= j < i ==> b.has(#[trigger] a.keys()[j]) && a.vals()[j]@ == b.value_of(
                    a.keys()[j],
                )@,
        decreases n - i,
    {
        proof {
            a.lemma_position(i as int);
        }
        let k = a.key_at(i);
        let v = a.value_at(i);
        match b.get(k.as_str()) {
            Some(w) => {
                if !str_equal(v.as_str(), w.as_str()) {
                    return false;
                }
            },
            None => {
                return false;
            },
        }
        i += 1;
    }
    assert forall|k: Seq<char>| #[trigger] a.has(k) implies b.has(k) && a.value_of(k)@
        == b.value_of(k)@ by {
        let j = a.keys().index_of(k);
        assert(a.keys()[j] == k);
        a.lemma_position(j);
    }
    true
}

/// Whether two tables hold the same entries, whatever their order.
pub fn table_eq(a: &StrMap<String>, b: &StrMap<String>) -> (r: bool)
    ensures
        r == (table_view(*a) == table_view(*b)),
{
    let r = table_within(a, b) && table_within(b, a);
    proof {
        if r {
            assert(table_view(*a) =~= table_view(*b));
        } else {
            if table_view(*a) == table_view(*b) {
                assert forall|k: Seq<char>| #[trigger] a.has(k) implies b.has(k) && a.value_of(
                    k,
                )@ == b.value_of(k)@ by {
                    assert(table_view(*a).dom().contains(k));
                    assert(table_view(*a)[k] == table_view(*b)[k]);
                }
                assert forall|k: Seq<char>| #[trigger] b.has(k) implies a.has(k) && b.value_of(
                    k,
                )@ == a.value_of(k)@ by {
                    assert(table_view(*b).dom().contains(k));
                    assert(table_view(*a)[k] == table_view(*b)[k]);
                }
            }
        }
    }
    r
}

/// A table after `value` was stored under `key` is the table before with
/// that one entry set.
pub proof fn lemma_table_insert(
    before: StrMap<String>,
    after: StrMap<String>,
    key: Seq<char>,
    value: String,
)
    requires
        before.wf(),
        after.wf(),
        before.has(key) ==> after.keys() == before.keys() && after.vals() == before.vals().update(
            before.keys().index_of(key),
            value,
        ),
        !before.has(key) ==> after.keys() == before.keys().push(key) && after.vals()
            == before.vals().push(value),
    ensures
        table_view(after) == table_view(before).insert(key, value@),
{
    assert forall|k: Seq<char>| #[trigger]
        table_view(after).dom().contains(k) == table_view(before).insert(
            key,
            value@,
        ).dom().contains(k) by {
        lemma_insert_keys(before, after, key, k);
    }
    assert forall|k: Seq<char>| #[trigger]
        table_view(after).dom().contains(k) implies table_view(after)[k] == table_view(
        before,
    ).insert(key, value@)[k] by {
        lemma_insert_keys(before, after, key, k);
        lemma_insert_value(before, after, key, value, k);
    }
    assert(table_view(after) =~= table_view(before).insert(key, value@));
}

/// Stores `value` under `key` in a string-to-string table.
pub fn table_insert(t: &mut StrMap<String>, key: String, value: String)
    ensures
        table_view(*final(t)) == table_view(*old(t)).insert(key@, value@),
{
    let ghost before = *t;
    t.insert(key, value);
    proof {
        lemma_table_insert(before, *t, key@, value);
    }
}

/// A copy of a string-to-string table.
pub fn table_clone(t: &StrMap<String>) -> (r: StrMap<String>)
    ensures
        r.keys() == t.keys(),
        r.vals() == t.vals(),
        table_view(r) == table_view(*t),
{
    let r = t.clone();
    assert(r.vals() =~= t.vals());
    r
}

/// Whether two lists of status codes are the same.
pub fn codes_eq(a: &Vec<u16>, b: &Vec<u16>) -> (r: bool)
    ensures
        r == (a@ == b@),
{
    if a.len() != b.len() {
        return false;
    }
    let mut i: usize = 0;
    while i < a.len()
        invariant
            i <= a.len(),
            a.len() == b.len(),
            forall|j: int| 0 <= j < i ==> a@[j] == b@[j],
        decreases a.len() - i,
    {
        if a[i] != b[i] {
            return false;
        }
        i += 1;
    }
    assert(a@ =~= b@);
    true
}

/// Settings of the status page.
#[derive(Debug)]
pub struct WebConfig {
    /// Whether the status page is served at all.
    pub enabled: bool,
    /// The port to listen on.
    pub port: u16,
    /// The address to bind to.
    pub bind_address: String,
    /// Whether only services with problems are shown.
    pub show_problems_only: bool,
    /// The layout of the page: `cards` or `table`.
    pub layout_type: String,
    /// Seconds between two automatic refreshes.
    pub refresh_interval_seconds: u32,
}

/// What a `WebConfig` says.
pub struct WebConfigView {
    pub enabled: bool,
    pub port: u16,
    pub bind_address: Seq<char>,
    pub show_problems_only: bool,
    pub layout_type: Seq<char>,
    pub refresh_interval_seconds: u32,
}

impl View for WebConfig {
    type V = WebConfigView;

    open spec fn view(&self) -> WebConfigView {
        WebConfigView {
            enabled: self.enabled,
            port: self.port,
            bind_address: self.bind_address@,
            show_problems_only: self.show_problems_only,
            layout_type: self.layout_type@,
            refresh_interval_seconds: self.refresh_interval_seconds,
        }
    }
}

/// Whether the status page is served unless the configuration says so.
pub fn default_web_enabled() -> (r: bool)
    ensures
        !r,
{
    false
}

/// The port of the status page unless the configuration names one.
pub fn default_web_port() -> (r: u16)
    ensures
        r == 8080,
{
    8080
}

/// The bind address of the status page unless the configuration names one.
pub fn default_web_bind_address() -> (r: String)
    ensures
        r@ == "0.0.0.0"@,
{
    "0.0.0.0".to_string()
}

/// Whether the status page hides healthy services by default.
pub fn default_show_problems_only() -> (r: bool)
    ensures
        !r,
{
    false
}

/// The layout of the status page unless the configuration names one.
pub fn default_layout_type() -> (r: String)
    ensures
        r@ == "cards"@,
{
    "cards".to_string()
}

/// Seconds between refreshes of the status page by default.
pub fn default_refresh_interval() -> (r: u32)
    ensures
        r == 3,
{
    3
}

impl Default for WebConfig {
    fn default() -> (r: Self)
        ensures
            r@ == (WebConfigView {
                enabled: false,
                port: 8080,
                bind_address: "0.0.0.0"@,
                show_problems_only: false,
                layout_type: "cards"@,
                refresh_interval_seconds: 3,
            }),
    {
        WebConfig {
            enabled: default_web_enabled(),
            port: default_web_port(),
            bind_address: default_web_bind_address(),
            show_problems_only: default_show_problems_only(),
            layout_type: default_layout_type(),
            refresh_interval_seconds: default_refresh_interval(),
        }
    }
}

impl Clone for WebConfig {
    fn clone(&self) -> (r: Self)
        ensures
            r@ == self@,
    {
        WebConfig {
            enabled: self.enabled,
            port: self.port,
            bind_address: self.bind_address.clone(),
            show_problems_only: self.show_problems_only,
            layout_type: self.layout_type.clone(),
            refresh_interval_seconds: self.refresh_interval_seconds,
        }
    }
}

impl PartialEq for WebConfig {
    fn eq(&self, other: &Self) -> (r: bool) {
        self.enabled == other.enabled && self.port == other.port && str_equal(
            self.bind_address.as_str(),
            other.bind_address.as_str(),
        ) && self.show_problems_only == other.show_problems_only && str_equal(
            self.layout_type.as_str(),
            other.layout_type.as_str(),
        ) && self.refresh_interval_seconds == other.refresh_interval_seconds
    }
}

impl PartialEqSpecImpl for WebConfig {
    open spec fn obeys_eq_spec() -> bool {
        true
    }

    open spec fn eq_spec(&self, other: &Self) -> bool {
        self@ == other@
    }
}

/// The view of an optional `WebConfig`.
pub open spec fn opt_web_view(o: Option<WebConfig>) -> Option<WebConfigView> {
    match o {
        Some(w) => Some(w@),
        None => None,
    }
}

/// Settings shared by all services.
#[derive(Debug)]
pub struct GlobalConfig {
    /// The webhook that alerts go to unless a service names its own.
    pub default_feishu_webhook_url: Option<String>,
    /// The template of alert messages, if one is configured.
    pub message_template: Option<String>,
    /// Seconds between two probes of a service that names no interval.
    pub check_interval_seconds: u64,
    /// One of `debug`, `info`, `warn`, `error`.
    pub log_level: String,
    /// Seconds after which a probe is given up.
    pub request_timeout_seconds: u64,
    /// How many probes may be in flight at once.
    pub max_concurrent_checks: usize,
    /// How often a failed probe is tried again.
    pub retry_attempts: u32,
    /// Seconds between two attempts of one probe.
    pub retry_delay_seconds: u64,
    /// Request headers sent with every probe.
    pub headers: StrMap<String>,
    /// Settings of the status page, if any.
    pub web: Option<WebConfig>,
}

/// What a `GlobalConfig` says.
pub struct GlobalConfigView {
    pub default_feishu_webhook_url: Option<Seq<char>>,
    pub message_template: Option<Seq<char>>,
    pub check_interval_seconds: u64,
    pub log_level: Seq<char>,
    pub request_timeout_seconds: u64,
    pub max_concurrent_checks: usize,
    pub retry_attempts: u32,
    pub retry_delay_seconds: u64,
    pub headers: Map<Seq<char>, Seq<char>>,
    pub web: Option<WebConfigView>,
}

impl View for GlobalConfig {
    type V = GlobalConfigView;

    open spec fn view(&self) -> GlobalConfigView {
        GlobalConfigView {
            default_feishu_webhook_url: opt_text(self.default_feishu_webhook_url),
            message_template: opt_text(self.message_template),
            check_interval_seconds: self.check_interval_seconds,
            log_level: self.log_level@,
            request_timeout_seconds: self.request_timeout_seconds,
            max_concurrent_checks: self.max_concurrent_checks,
            retry_attempts: self.retry_attempts,
            retry_delay_seconds: self.retry_delay_seconds,
            headers: table_view(self.headers),
            web: opt_web_view(self.web),
        }
    }
}

/// Seconds between two probes unless the configuration says otherwise.
pub fn default_check_interval() -> (r: u64)
    ensures
        r == 60,
{
    60
}

/// The log level unless the configuration names one.
pub fn default_log_level() -> (r: String)
    ensures
        r@ == "info"@,
{
    "info".to_string()
}

/// Seconds after which a probe is given up by default.
pub fn default_timeout() -> (r: u64)
    ensures
        r == 10,
{
    10
}

/// How many probes may be in flight at once by default.
pub fn default_max_concurrent() -> (r: usize)
    ensures
        r == 50,
{
    50
}

/// How often a failed probe is tried again by default.
pub fn default_retry_attempts() -> (r: u32)
    ensures
        r == 3,
{
    3
}

/// Seconds between two attempts of one probe by default.
pub fn default_retry_delay() -> (r: u64)
    ensures
        r == 5,
{
    5
}

/// The HTTP method of a service that names none.
pub fn default_method() -> (r: String)
    ensures
        r@ == "GET"@,
{
    "GET".to_string()
}

/// The failure threshold of a service that names none.
pub fn default_failure_threshold() -> (r: u32)
    ensures
        r == 1,
{
    1
}

/// Whether a service is probed unless the configuration says otherwise.
pub fn default_enabled() -> (r: bool)
    ensures
        r,
{
    true
}

/// Seconds of alert cooldown of a service that names none.
pub fn default_alert_cooldown() -> (r: u64)
    ensures
        r == 300,
{
    300
}

impl Clone for GlobalConfig {
    fn clone(&self) -> (r: Self)
        ensures
            r@ == self@,
    {
        let web = match &self.web {
            Some(w) => Some(w.clone()),
            None => None,
        };
        GlobalConfig {
            default_feishu_webhook_url: self.default_feishu_webhook_url.clone(),
            message_template: self.message_template.clone(),
            check_interval_seconds: self.check_interval_seconds,
            log_level: self.log_level.clone(),
            request_timeout_seconds: self.request_timeout_seconds,
            max_concurrent_checks: self.max_concurrent_checks,
            retry_attempts: self.retry_attempts,
            retry_delay_seconds: self.retry_delay_seconds,
            headers: table_clone(&self.headers),
            web,
        }
    }
}

/// Whether two optional status-page settings say the same.
pub fn opt_web_eq(a: &Option<WebConfig>, b: &Option<WebConfig>) -> (r: bool)
    ensures
        r == (opt_web_view(*a) == opt_web_view(*b)),
{
    match (a, b) {
        (Some(x), Some(y)) => x == y,
        (None, None) => true,
        _ => false,
    }
}

impl PartialEq for GlobalConfig {
    fn eq(&self, other: &Self) -> (r: bool) {
        opt_string_eq(&self.default_feishu_webhook_url, &other.default_feishu_webhook_url)
            && opt_string_eq(&self.message_template, &other.message_template)
            && self.check_interval_seconds == other.check_interval_seconds && str_equal(
            self.log_level.as_str(),
            other.log_level.as_str(),
        ) && self.request_timeout_seconds == other.request_timeout_seconds
            && self.max_concurrent_checks == other.max_concurrent_checks && self.retry_attempts
            == other.retry_attempts && self.retry_delay_seconds == other.retry_delay_seconds
            && table_eq(&self.headers, &other.headers) && opt_web_eq(&self.web, &other.web)
    }
}

impl PartialEqSpecImpl for GlobalConfig {
    open spec fn obeys_eq_spec() -> bool {
        true
    }

    open spec fn eq_spec(&self, other: &Self) -> bool {
        self@ == other@
    }
}

/// One monitored service.
#[derive(Debug)]
pub struct ServiceConfig {
    /// The name that identifies the service.
    pub name: String,
    /// The address to probe.
    pub url: String,
    /// The HTTP method of the probe.
    pub method: String,
    /// The status codes that count as healthy.
    pub expected_status_codes: Vec<u16>,
    /// The webhook for this service's alerts, if it has its own.
    pub feishu_webhook_url: Option<String>,
    /// How many probes in a row must fail before an alert is raised.
    pub failure_threshold: u32,
    /// Seconds between two probes, where the service overrides the default.
    pub check_interval_seconds: Option<u64>,
    /// Whether the service is probed at all.
    pub enabled: bool,
    /// A description for people.
    pub description: Option<String>,
    /// Request headers sent with this service's probes.
    pub headers: StrMap<String>,
    /// The JSON document sent as the request body, if any.
    pub body: Option<String>,
    /// Seconds during which a repeated alert is held back.
    pub alert_cooldown_secs: u64,
}

/// What a `ServiceConfig` says.
pub struct ServiceConfigView {
    pub name: Seq<char>,
    pub url: Seq<char>,
    pub method: Seq<char>,
    pub expected_status_codes: Seq<u16>,
    pub feishu_webhook_url: Option<Seq<char>>,
    pub failure_threshold: u32,
    pub check_interval_seconds: Option<u64>,
    pub enabled: bool,
    pub description: Option<Seq<char>>,
    pub headers: Map<Seq<char>, Seq<char>>,
    pub body: Option<Seq<char>>,
    pub alert_cooldown_secs: u64,
}

impl View for ServiceConfig {
    type V = ServiceConfigView;

    open spec fn view(&self) -> ServiceConfigView {
        ServiceConfigView {
            name: self.name@,
            url: self.url@,
            method: self.method@,
            expected_status_codes: self.expected_status_codes@,
            feishu_webhook_url: opt_text(self.feishu_webhook_url),
            failure_threshold: self.failure_threshold,
            check_interval_seconds: self.check_interval_seconds,
            enabled: self.enabled,
            description: opt_text(self.description),
            headers: table_view(self.headers),
            body: opt_text(self.body),
            alert_cooldown_secs: self.alert_cooldown_secs,
        }
    }
}

impl Clone for ServiceConfig {
    fn clone(&self) -> (r: Self)
        ensures
            r@ == self@,
    {
        ServiceConfig {
            name: self.name.clone(),
            url: self.url.clone(),
            method: self.method.clone(),
            expected_status_codes: self.expected_status_codes.clone(),
            feishu_webhook_url: self.feishu_webhook_url.clone(),
            failure_threshold: self.failure_threshold,
            check_interval_seconds: self.check_interval_seconds,
            enabled: self.enabled,
            description: self.description.clone(),
            headers: table_clone(&self.headers),
            body: self.body.clone(),
            alert_cooldown_secs: self.alert_cooldown_secs,
        }
    }
}

/// Whether two optional intervals are the same.
pub fn opt_u64_eq(a: Option<u64>, b: Option<u64>) -> (r: bool)
    ensures
        r == (a == b),
{
    match (a, b) {
        (Some(x), Some(y)) => x == y,
        (None, None) => true,
        _ => false,
    }
}

impl PartialEq for ServiceConfig {
    fn eq(&self, other: &Self) -> (r: bool) {
        str_equal(self.name.as_str(), other.name.as_str()) && str_equal(
            self.url.as_str(),
            other.url.as_str(),
        ) && str_equal(self.method.as_str(), other.method.as_str()) && codes_eq(
            &self.expected_status_codes,
            &other.expected_status_codes,
        ) && opt_string_eq(&self.feishu_webhook_url, &other.feishu_webhook_url)
            && self.failure_threshold == other.failure_threshold && opt_u64_eq(
            self.check_interval_seconds,
            other.check_interval_seconds,
        ) && self.enabled == other.enabled && opt_string_eq(&self.description, &other.description)
            && table_eq(&self.headers, &other.headers) && opt_string_eq(&self.body, &other.body)
            && self.alert_cooldown_secs == other.alert_cooldown_secs
    }
}

impl PartialEqSpecImpl for ServiceConfig {
    open spec fn obeys_eq_spec() -> bool {
        true
    }

    open spec fn eq_spec(&self, other: &Self) -> bool {
        self@ == other@
    }
}

/// The views of a list of services, in order.
pub open spec fn services_view(services: Seq<ServiceConfig>) -> Seq<ServiceConfigView> {
    Seq::new(services.len(), |i: int| services[i]@)
}

/// A whole configuration.
#[derive(Debug)]
pub struct Config {
    /// Settings shared by all services.
    pub global: GlobalConfig,
    /// The monitored services.
    pub services: Vec<ServiceConfig>,
}

/// What a `Config` says.
pub struct ConfigView {
    pub global: GlobalConfigView,
    pub services: Seq<ServiceConfigView>,
}

impl View for Config {
    type V = ConfigView;

    open spec fn view(&self) -> ConfigView {
        ConfigView { global: self.global@, services: services_view(self.services@) }
    }
}

/// A copy of a list of services.
pub fn clone_services(services: &Vec<ServiceConfig>) -> (r: Vec<ServiceConfig>)
    ensures
        services_view(r@) == services_view(services@),
{
    let mut r: Vec<ServiceConfig> = Vec::new();
    let mut i: usize = 0;
    while i < services.len()
        invariant
            i <= services.len(),
            r@.len() == i,
            forall|j: int| 0 <= j < i ==> r@[j]@ == services@[j]@,
        decreases services.len() - i,
    {
        r.push(services[i].clone());
        i += 1;
    }
    assert(services_view(r@) =~= services_view(services@));
    r
}

impl Clone for Config {
    fn clone(&self) -> (r: Self)
        ensures
            r@ == self@,
    {
        Config { global: self.global.clone(), services: clone_services(&self.services) }
    }
}

} // verus!
