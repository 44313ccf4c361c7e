//! Whole-tree validation of a configuration: what makes one valid, which rule
//! a rejected one breaks first, and the message that says so.

use crate::config::types::{Config, ConfigView, ServiceConfig, ServiceConfigView, services_view};
use crate::text::{
    concat3, contains_text, decimal_text, is_blank, is_blank_text, occurs_at, starts_with, str_equal,
    u64_to_text,
};
use vstd::prelude::*;

verus! {

/// Whether `level` is one of the four log levels.
pub open spec fn is_log_level(level: Seq<char>) -> bool {
    level == "debug"@ || level == "info"@ || level == "warn"@ || level == "error"@
}

/// Whether `layout` is one of the two layouts of the status page.
pub open spec fn is_layout_type(layout: Seq<char>) -> bool {
    layout == "cards"@ || layout == "table"@
}

/// Whether `method` is one of the seven HTTP methods a probe may use.
pub open spec fn is_probe_method(method: Seq<char>) -> bool {
    method == "GET"@ || method == "POST"@ || method == "PUT"@ || method == "DELETE"@ || method
        == "HEAD"@ || method == "OPTIONS"@ || method == "PATCH"@
}

/// Whether `url` begins with `http://` or `https://`.
pub open spec fn has_http_scheme(url: Seq<char>) -> bool {
    "http://"@.is_prefix_of(url) || "https://"@.is_prefix_of(url)
}

/// Whether `code` is a status code a server can answer with.
pub open spec fn is_status_code(code: u16) -> bool {
    100 <= code <= 599
}

/// Whether the global block is valid.
pub open spec fn global_valid(c: ConfigView) -> bool {
    &&& c.global.check_interval_seconds >= 1
    &&& c.global.request_timeout_seconds >= 1
    &&& c.global.max_concurrent_checks >= 1
    &&& is_log_level(c.global.log_level)
    &&& match c.global.web {
        Some(w) => w.enabled ==> {
            &&& w.port != 0
            &&& w.bind_address.len() > 0
            &&& is_layout_type(w.layout_type)
            &&& 1 <= w.refresh_interval_seconds <= 300
        },
        None => true,
    }
}

/// Whether one service, taken alone, is valid.
pub open spec fn service_valid(s: ServiceConfigView) -> bool {
    &&& !is_blank_text(s.name)
    &&& has_http_scheme(s.url)
    &&& s.expected_status_codes.len() > 0
    &&& forall|k: int|
        0 <= k < s.expected_status_codes.len() ==> is_status_code(
            #[trigger] s.expected_status_codes[k],
        )
    &&& is_probe_method(s.method)
    &&& s.failure_threshold >= 1
    &&& match s.check_interval_seconds {
        Some(secs) => secs >= 1,
        None => true,
    }
}

/// Whether no two services share a name.
pub open spec fn names_unique(services: Seq<ServiceConfigView>) -> bool {
    forall|i: int, j: int|
        0 <= i < services.len() && 0 <= j < services.len() && i != j ==> (
        #[trigger] services[i]).name != (#[trigger] services[j]).name
}

/// Whether a configuration is valid: a valid global block, at least one
/// service, every service valid, and no name used twice.
pub open spec fn config_valid(c: ConfigView) -> bool {
    &&& global_valid(c)
    &&& c.services.len() > 0
    &&& forall|i: int| 0 <= i < c.services.len() ==> service_valid(#[trigger] c.services[i])
    &&& names_unique(c.services)
}

/// A broken rule. Those that concern a service carry its position in the
/// list of services.
#[derive(Clone, Copy, Debug, PartialEq, Eq, Structural)]
pub enum ConfigViolation {
    /// The default check interval is zero.
    ZeroCheckInterval,
    /// The request timeout is zero.
    ZeroRequestTimeout,
    /// No probe may run at all.
    ZeroMaxConcurrentChecks,
    /// The log level is not one of the four.
    InvalidLogLevel,
    /// The status page is enabled on port zero.
    ZeroWebPort,
    /// The status page is enabled with an empty bind address.
    EmptyWebBindAddress,
    /// The layout of the status page is not one of the two.
    InvalidWebLayout,
    /// The status page refreshes every zero seconds.
    ZeroWebRefreshInterval,
    /// The status page refreshes less often than every 300 seconds.
    WebRefreshIntervalTooLong,
    /// There is no service.
    NoServices,
    /// The service's name is empty or blank.
    BlankServiceName { index: usize },
    /// An earlier service has the same name.
    DuplicateServiceName { index: usize },
    /// The service's URL has no `http://` or `https://` in front.
    InvalidUrl { index: usize },
    /// The service expects no status code.
    NoStatusCodes { index: usize },
    /// The service expects `code`, which is outside 100 to 599.
    InvalidStatusCode { index: usize, code: u16 },
    /// The service's method is not one of the seven.
    InvalidMethod { index: usize },
    /// The service's failure threshold is zero.
    ZeroFailureThreshold { index: usize },
    /// The service's own check interval is zero.
    ZeroServiceInterval { index: usize },
}

/// The first rule of the global block that `c` breaks, in the order in which
/// they are checked.
pub open spec fn global_violation(c: ConfigView) -> Option<ConfigViolation> {
    if c.global.check_interval_seconds == 0 {
        Some(ConfigViolation::ZeroCheckInterval)
    } else if c.global.request_timeout_seconds == 0 {
        Some(ConfigViolation::ZeroRequestTimeout)
    } else if c.global.max_concurrent_checks == 0 {
        Some(ConfigViolation::ZeroMaxConcurrentChecks)
    } else if !is_log_level(c.global.log_level) {
        Some(ConfigViolation::InvalidLogLevel)
    } else {
        match c.global.web {
            Some(w) => if !w.enabled {
                None
            } else if w.port == 0 {
                Some(ConfigViolation::ZeroWebPort)
            } else if w.bind_address.len() == 0 {
                Some(ConfigViolation::EmptyWebBindAddress)
            } else if !is_layout_type(w.layout_type) {
                Some(ConfigViolation::InvalidWebLayout)
            } else if w.refresh_interval_seconds == 0 {
                Some(ConfigViolation::ZeroWebRefreshInterval)
            } else if w.refresh_interval_seconds > 300 {
                Some(ConfigViolation::WebRefreshIntervalTooLong)
            } else {
                None
            },
            None => None,
        }
    }
}

/// The first code of `codes`, from position `from` on, that is no status code.
pub open spec fn first_bad_code(codes: Seq<u16>, from: int) -> Option<u16>
    decreases codes.len() - from,
{
    if from < 0 || from >= codes.len() {
        None
    } else if !is_status_code(codes[from]) {
        Some(codes[from])
    } else {
        first_bad_code(codes, from + 1)
    }
}

/// Whether a service before position `i` has the name of the one at `i`.
pub open spec fn name_taken(services: Seq<ServiceConfigView>, i: int) -> bool {
    exists|j: int| 0 <= j < i && (#[trigger] services[j]).name == services[i].name
}

/// The first rule that the service at position `i` breaks.
pub open spec fn service_violation(services: Seq<ServiceConfigView>, i: int) -> Option<
    ConfigViolation,
> {
    let s = services[i];
    let index = i as usize;
    if is_blank_text(s.name) {
        Some(ConfigViolation::BlankServiceName { index })
    } else if name_taken(services, i) {
        Some(ConfigViolation::DuplicateServiceName { index })
    } else if !has_http_scheme(s.url) {
        Some(ConfigViolation::InvalidUrl { index })
    } else if s.expected_status_codes.len() == 0 {
        Some(ConfigViolation::NoStatusCodes { index })
    } else if first_bad_code(s.expected_status_codes, 0) is Some {
        Some(
            ConfigViolation::InvalidStatusCode {
                index,
                code: first_bad_code(s.expected_status_codes, 0)->0,
            },
        )
    } else if !is_probe_method(s.method) {
        Some(ConfigViolation::InvalidMethod { index })
    } else if s.failure_threshold == 0 {
        Some(ConfigViolation::ZeroFailureThreshold { index })
    } else if s.check_interval_seconds == Some(0u64) {
        Some(ConfigViolation::ZeroServiceInterval { index })
    } else {
        None
    }
}

/// The first broken rule among the services from position `from` on.
pub open spec fn services_violation(services: Seq<ServiceConfigView>, from: int) -> Option<
    ConfigViolation,
>
    decreases services.len() - from,
{
    if from < 0 || from >= services.len() {
        None
    } else if service_violation(services, from) is Some {
        service_violation(services, from)
    } else {
        services_violation(services, from + 1)
    }
}

/// The first rule that `c` breaks: the global block first, then the services
/// in order. `None` where `c` breaks none.
pub open spec fn first_violation(c: ConfigView) -> Option<ConfigViolation> {
    if global_violation(c) is Some {
        global_violation(c)
    } else if c.services.len() == 0 {
        Some(ConfigViolation::NoServices)
    } else {
        services_violation(c.services, 0)
    }
}

/// The position of the service that `v` concerns, if it concerns one.
pub open spec fn violation_service(v: ConfigViolation) -> Option<usize> {
    match v {
        ConfigViolation::BlankServiceName { index } => Some(index),
        ConfigViolation::DuplicateServiceName { index } => Some(index),
        ConfigViolation::InvalidUrl { index } => Some(index),
        ConfigViolation::NoStatusCodes { index } => Some(index),
        ConfigViolation::InvalidStatusCode { index, code } => Some(index),
        ConfigViolation::InvalidMethod { index } => Some(index),
        ConfigViolation::ZeroFailureThreshold { index } => Some(index),
        ConfigViolation::ZeroServiceInterval { index } => Some(index),
        _ => None,
    }
}

/// The name of the service at position `index`.
pub open spec fn name_at(c: ConfigView, index: usize) -> Seq<char> {
    c.services[index as int].name
}

/// The message that reports `v` for the configuration `c`.
pub open spec fn violation_message(c: ConfigView, v: ConfigViolation) -> Seq<char> {
    match v {
        ConfigViolation::ZeroCheckInterval => "检测间隔不能为0"@,
        ConfigViolation::ZeroRequestTimeout => "请求超时时间不能为0"@,
        ConfigViolation::ZeroMaxConcurrentChecks => "最大并发检测数不能为0"@,
        ConfigViolation::InvalidLogLevel => "无效的日志级别: "@ + c.global.log_level
            + "，支持的级别: [\"debug\", \"info\", \"warn\", \"error\"]"@,
        ConfigViolation::ZeroWebPort => "无效的Web服务器端口: 0，端口不能为0"@,
        ConfigViolation::EmptyWebBindAddress => "Web服务器绑定地址不能为空"@,
        ConfigViolation::InvalidWebLayout => "无效的界面布局类型: "@ + c.global.web->0.layout_type
            + "，支持的类型: [\"cards\", \"table\"]"@,
        ConfigViolation::ZeroWebRefreshInterval => "Web界面刷新间隔不能为0秒"@,
        ConfigViolation::WebRefreshIntervalTooLong => "Web界面刷新间隔不能超过300秒"@,
        ConfigViolation::NoServices => "至少需要配置一个服务"@,
        ConfigViolation::BlankServiceName { index } => "服务名称不能为空"@,
        ConfigViolation::DuplicateServiceName { index } => "服务 "@ + name_at(c, index)
            + " 的名称重复"@,
        ConfigViolation::InvalidUrl { index } => "服务 "@ + name_at(c, index) + " 的URL格式无效"@,
        ConfigViolation::NoStatusCodes { index } => "服务 "@ + name_at(c, index)
            + " 必须指定期望的状态码"@,
        ConfigViolation::InvalidStatusCode { index, code } => "服务 "@ + name_at(c, index)
            + " 的状态码 "@ + decimal_text(code as nat) + " 无效"@,
        ConfigViolation::InvalidMethod { index } => "服务 "@ + name_at(c, index) + " 的HTTP方法 "@
            + c.services[index as int].method
            + " 无效，支持的方法: [\"GET\", \"POST\", \"PUT\", \"DELETE\", \"HEAD\", \"OPTIONS\", \"PATCH\"]"@,
        ConfigViolation::ZeroFailureThreshold { index } => "服务 "@ + name_at(c, index)
            + " 的失败阈值不能为0"@,
        ConfigViolation::ZeroServiceInterval { index } => "服务 "@ + name_at(c, index)
            + " 的检测间隔不能为0"@,
    }
}

fn check_log_level(level: &str) -> (r: bool)
    ensures
        r == is_log_level(level@),
{
    str_equal(level, "debug") || str_equal(level, "info") || str_equal(level, "warn")
        || str_equal(level, "error")
}

fn check_layout_type(layout: &str) -> (r: bool)
    ensures
        r == is_layout_type(layout@),
{
    str_equal(layout, "cards") || str_equal(layout, "table")
}

fn check_probe_method(method: &str) -> (r: bool)
    ensures
        r == is_probe_method(method@),
{
    str_equal(method, "GET") || str_equal(method, "POST") || str_equal(method, "PUT")
        || str_equal(method, "DELETE") || str_equal(method, "HEAD") || str_equal(
        method,
        "OPTIONS",
    ) || str_equal(method, "PATCH")
}

fn check_http_scheme(url: &str) -> (r: bool)
    ensures
        r == has_http_scheme(url@),
{
    starts_with(url, "http://") || starts_with(url, "https://")
}

fn find_global_violation(config: &Config) -> (r: Option<ConfigViolation>)
    ensures
        r == global_violation(config@),
{
    if config.global.check_interval_seconds == 0 {
        return Some(ConfigViolation::ZeroCheckInterval);
    }
    if config.global.request_timeout_seconds == 0 {
        return Some(ConfigViolation::ZeroRequestTimeout);
    }
    if config.global.max_concurrent_checks == 0 {
        return Some(ConfigViolation::ZeroMaxConcurrentChecks);
    }
    if !check_log_level(config.global.log_level.as_str()) {
        return Some(ConfigViolation::InvalidLogLevel);
    }
    match &config.global.web {
        Some(w) => {
            if !w.enabled {
                None
            } else if w.port == 0 {
                Some(ConfigViolation::ZeroWebPort)
            } else if w.bind_address.as_str().is_empty() {
                Some(ConfigViolation::EmptyWebBindAddress)
            } else if !check_layout_type(w.layout_type.as_str()) {
                Some(ConfigViolation::InvalidWebLayout)
            } else if w.refresh_interval_seconds == 0 {
                Some(ConfigViolation::ZeroWebRefreshInterval)
            } else if w.refresh_interval_seconds > 300 {
                Some(ConfigViolation::WebRefreshIntervalTooLong)
            } else {
                None
            }
        },
        None => None,
    }
}

fn find_bad_code(codes: &Vec<u16>) -> (r: Option<u16>)
    ensures
        r == first_bad_code(codes@, 0),
{
    let mut k: usize = 0;
    while k < codes.len()
        invariant
            k <= codes.len(),
            first_bad_code(codes@, 0) == first_bad_code(codes@, k as int),
        decreases codes.len() - k,
    {
        let code = codes[k];
        if code < 100 || code > 599 {
            return Some(code);
        }
        k += 1;
    }
    None
}

fn is_name_taken(services: &Vec<ServiceConfig>, i: usize) -> (r: bool)
    requires
        i < services.len(),
    ensures
        r == name_taken(services_view(services@), i as int),
{
    let ghost views = services_view(services@);
    let mut j: usize = 0;
    while j < i
        invariant
            j <= i,
            i < services.len(),
            views == services_view(services@),
            forall|k: int| 0 <= k < j ==> (#[trigger] views[k]).name != views[i as int].name,
        decreases i - j,
    {
        if str_equal(services[j].name.as_str(), services[i].name.as_str()) {
            assert(views[j as int].name == views[i as int].name);
            return true;
        }
        j += 1;
    }
    false
}

fn find_service_violation(services: &Vec<ServiceConfig>, i: usize) -> (r: Option<
    ConfigViolation,
>)
    requires
        i < services.len(),
    ensures
        r == service_violation(services_view(services@), i as int),
{
    let s = &services[i];
    assert(services_view(services@)[i as int] == s@);
    if is_blank(s.name.as_str()) {
        return Some(ConfigViolation::BlankServiceName { index: i });
    }
    if is_name_taken(services, i) {
        return Some(ConfigViolation::DuplicateServiceName { index: i });
    }
    if !check_http_scheme(s.url.as_str()) {
        return Some(ConfigViolation::InvalidUrl { index: i });
    }
    if s.expected_status_codes.len() == 0 {
        return Some(ConfigViolation::NoStatusCodes { index: i });
    }
    match find_bad_code(&s.expected_status_codes) {
        Some(code) => {
            return Some(ConfigViolation::InvalidStatusCode { index: i, code });
        },
        None => {},
    }
    if !check_probe_method(s.method.as_str()) {
        return Some(ConfigViolation::InvalidMethod { index: i });
    }
    if s.failure_threshold == 0 {
        return Some(ConfigViolation::ZeroFailureThreshold { index: i });
    }
    match s.check_interval_seconds {
        Some(secs) => {
            if secs == 0 {
                return Some(ConfigViolation::ZeroServiceInterval { index: i });
            }
        },
        None => {},
    }
    None
}

/// Finds the first rule that `config` breaks, the global block first and
/// then the services in order.
pub fn find_violation(config: &Config) -> (r: Option<ConfigViolation>)
    ensures
        r == first_violation(config@),
        r is None <==> config_valid(config@),
        match r {
            Some(v) => violation_in_range(config@, v),
            None => true,
        },
{
    proof {
        assert(config@.services.len() == config.services.len());
        lemma_valid_iff_no_violation(config@);
        lemma_first_violation_in_range(config@);
    }
    match find_global_violation(config) {
        Some(v) => {
            return Some(v);
        },
        None => {},
    }
    if config.services.len() == 0 {
        return Some(ConfigViolation::NoServices);
    }
    let ghost views = services_view(config.services@);
    let mut i: usize = 0;
    while i < config.services.len()
        invariant
            i <= config.services.len(),
            views == services_view(config.services@),
            views == config@.services,
            global_violation(config@) is None,
            views.len() > 0,
            services_violation(views, 0) == services_violation(views, i as int),
            first_violation(config@) is None <==> config_valid(config@),
            first_violation(config@) is Some ==> violation_in_range(
                config@,
                first_violation(config@)->0,
            ),
        decreases config.services.len() - i,
    {
        match find_service_violation(&config.services, i) {
            Some(v) => {
                return Some(v);
            },
            None => {},
        }
        i += 1;
    }
    None
}

/// Whether `v` points at something that `c` has: a service inside the list,
/// and the status page where `v` speaks of its layout.
pub open spec fn violation_in_range(c: ConfigView, v: ConfigViolation) -> bool {
    &&& match violation_service(v) {
        Some(index) => index < c.services.len(),
        None => true,
    }
    &&& v == ConfigViolation::InvalidWebLayout ==> c.global.web is Some
}

/// The message that reports `v` for `config`.
pub fn violation_text(config: &Config, v: ConfigViolation) -> (m: String)
    requires
        violation_in_range(config@, v),
    ensures
        m@ == violation_message(config@, v),
{
    let ghost c = config@;
    match v {
        ConfigViolation::ZeroCheckInterval => "检测间隔不能为0".to_string(),
        ConfigViolation::ZeroRequestTimeout => "请求超时时间不能为0".to_string(),
        ConfigViolation::ZeroMaxConcurrentChecks => "最大并发检测数不能为0".to_string(),
        ConfigViolation::InvalidLogLevel => concat3(
            "无效的日志级别: ",
            config.global.log_level.as_str(),
            "，支持的级别: [\"debug\", \"info\", \"warn\", \"error\"]",
        ),
        ConfigViolation::ZeroWebPort => "无效的Web服务器端口: 0，端口不能为0".to_string(),
        ConfigViolation::EmptyWebBindAddress => "Web服务器绑定地址不能为空".to_string(),
        ConfigViolation::InvalidWebLayout => {
            match &config.global.web {
                Some(w) => concat3(
                    "无效的界面布局类型: ",
                    w.layout_type.as_str(),
                    "，支持的类型: [\"cards\", \"table\"]",
                ),
                None => String::new(),
            }
        },
        ConfigViolation::ZeroWebRefreshInterval => "Web界面刷新间隔不能为0秒".to_string(),
        ConfigViolation::WebRefreshIntervalTooLong => "Web界面刷新间隔不能超过300秒".to_string(),
        ConfigViolation::NoServices => "至少需要配置一个服务".to_string(),
        ConfigViolation::BlankServiceName { index } => "服务名称不能为空".to_string(),
        ConfigViolation::DuplicateServiceName { index } => {
            assert(c.services[index as int] == config.services@[index as int]@);
            concat3("服务 ", config.services[index].name.as_str(), " 的名称重复")
        },
        ConfigViolation::InvalidUrl { index } => {
            assert(c.services[index as int] == config.services@[index as int]@);
            concat3("服务 ", config.services[index].name.as_str(), " 的URL格式无效")
        },
        ConfigViolation::NoStatusCodes { index } => {
            assert(c.services[index as int] == config.services@[index as int]@);
            concat3("服务 ", config.services[index].name.as_str(), " 必须指定期望的状态码")
        },
        ConfigViolation::InvalidStatusCode { index, code } => {
            assert(c.services[index as int] == config.services@[index as int]@);
            let mut m = concat3("服务 ", config.services[index].name.as_str(), " 的状态码 ");
            let digits = u64_to_text(code as u64);
            m.append(digits.as_str());
            m.append(" 无效");
            m
        },
        ConfigViolation::InvalidMethod { index } => {
            assert(c.services[index as int] == config.services@[index as int]@);
            let mut m = concat3("服务 ", config.services[index].name.as_str(), " 的HTTP方法 ");
            m.append(config.services[index].method.as_str());
            m.append(
                " 无效，支持的方法: [\"GET\", \"POST\", \"PUT\", \"DELETE\", \"HEAD\", \"OPTIONS\", \"PATCH\"]",
            );
            m
        },
        ConfigViolation::ZeroFailureThreshold { index } => {
            assert(c.services[index as int] == config.services@[index as int]@);
            concat3("服务 ", config.services[index].name.as_str(), " 的失败阈值不能为0")
        },
        ConfigViolation::ZeroServiceInterval { index } => {
            assert(c.services[index as int] == config.services@[index as int]@);
            concat3("服务 ", config.services[index].name.as_str(), " 的检测间隔不能为0")
        },
    }
}

/// Validates a whole configuration. It is accepted exactly when it is valid;
/// a rejected one comes back with the message for the first rule it breaks.
pub fn validate_config(config: &Config) -> (r: Result<(), String>)
    ensures
        r is Ok <==> config_valid(config@),
        match r {
            Ok(_) => first_violation(config@) is None,
            Err(m) => first_violation(config@) is Some && m@ == violation_message(
                config@,
                first_violation(config@)->0,
            ),
        },
{
    match find_violation(config) {
        Some(v) => Err(violation_text(config, v)),
        None => Ok(()),
    }
}

/// No code from `from` on is bad exactly when all of them are status codes.
pub proof fn lemma_bad_code(codes: Seq<u16>, from: int)
    requires
        0 <= from <= codes.len(),
    ensures
        first_bad_code(codes, from) is None <==> (forall|k: int|
            from <= k < codes.len() ==> is_status_code(#[trigger] codes[k])),
        first_bad_code(codes, from) is Some ==> !is_status_code(first_bad_code(codes, from)->0),
    decreases codes.len() - from,
{
    if from < codes.len() {
        lemma_bad_code(codes, from + 1);
        if is_status_code(codes[from]) {
            assert forall|k: int|
                from <= k < codes.len() && first_bad_code(codes, from)
                    is None implies is_status_code(#[trigger] codes[k]) by {
                if k > from {
                }
            }
        }
    }
}

/// A service breaks no rule exactly when it is valid and its name is new.
pub proof fn lemma_service_violation(services: Seq<ServiceConfigView>, i: int)
    requires
        0 <= i < services.len(),
    ensures
        service_violation(services, i) is None <==> service_valid(services[i]) && !name_taken(
            services,
            i,
        ),
        service_violation(services, i) is Some ==> violation_service(
            service_violation(services, i)->0,
        ) == Some(i as usize),
{
    lemma_bad_code(services[i].expected_status_codes, 0);
}

/// The services from `from` on break no rule exactly when each is valid and
/// none repeats an earlier name.
pub proof fn lemma_services_violation(services: Seq<ServiceConfigView>, from: int)
    requires
        0 <= from <= services.len(),
        services.len() <= usize::MAX,
    ensures
        services_violation(services, from) is None <==> (forall|i: int|
            from <= i < services.len() ==> service_valid(#[trigger] services[i]) && !name_taken(
                services,
                i,
            )),
        match services_violation(services, from) {
            Some(v) => match violation_service(v) {
                Some(index) => from <= index < services.len() && service_violation(
                    services,
                    index as int,
                ) == Some(v),
                None => false,
            },
            None => true,
        },
    decreases services.len() - from,
{
    if from < services.len() {
        lemma_service_violation(services, from);
        lemma_services_violation(services, from + 1);
    }
}

/// No service repeats an earlier name exactly when all names differ.
pub proof fn lemma_names_unique(services: Seq<ServiceConfigView>)
    ensures
        names_unique(services) <==> (forall|i: int|
            0 <= i < services.len() ==> !name_taken(services, i)),
{
    if names_unique(services) {
        assert forall|i: int| 0 <= i < services.len() implies !name_taken(services, i) by {
            if name_taken(services, i) {
                let j = choose|j: int| 0 <= j < i && (#[trigger] services[j]).name == services[i].name;
                assert(services[i].name != services[j].name);
            }
        }
    }
    if forall|i: int| 0 <= i < services.len() ==> !name_taken(services, i) {
        assert forall|i: int, j: int|
            0 <= i < services.len() && 0 <= j < services.len() && i != j implies (
        #[trigger] services[i]).name != (#[trigger] services[j]).name by {
            if services[i].name == services[j].name {
                if j < i {
                    assert(name_taken(services, i));
                } else {
                    assert(name_taken(services, j));
                }
            }
        }
    }
}

/// A configuration breaks no rule exactly when it is valid.
pub proof fn lemma_valid_iff_no_violation(c: ConfigView)
    requires
        c.services.len() <= usize::MAX,
    ensures
        first_violation(c) is None <==> config_valid(c),
{
    lemma_services_violation(c.services, 0);
    lemma_names_unique(c.services);
}

/// The first broken rule points at something the configuration has.
pub proof fn lemma_first_violation_in_range(c: ConfigView)
    requires
        c.services.len() <= usize::MAX,
    ensures
        first_violation(c) is Some ==> violation_in_range(c, first_violation(c)->0),
{
    lemma_services_violation(c.services, 0);
}

/// A rejection that concerns a service with a name reports that name: the
/// message holds it right after its first word. (A blank name is reported
/// without one.)
pub proof fn lemma_message_names_service(c: ConfigView, v: ConfigViolation)
    requires
        violation_service(v) is Some,
        !(v is BlankServiceName),
    ensures
        contains_text(violation_message(c, v), name_at(c, violation_service(v)->0)),
{
    reveal_strlit("服务 ");
    let name = name_at(c, violation_service(v)->0);
    let m = violation_message(c, v);
    assert(m.subrange(3, 3 + name.len() as int) =~= name);
    assert(occurs_at(m, name, 3));
}

} // verus!
