//! What the status page and the API show: the state of each service as
//! readers see it, and the counts over all of them.

pub mod api;
pub mod auth;

use crate::config::types::opt_text;
use crate::health::result::HealthStatus;
use crate::status::{ServiceStatus, ServiceStatusView};
use crate::text::{concat2, decimal_text, str_equal, u64_to_text};
use vstd::prelude::*;

verus! {

/// What can go wrong with the web server.
#[derive(Debug)]
pub enum WebError {
    /// The port is taken.
    PortConflict { port: u16 },
    /// The page could not be rendered.
    TemplateRenderError { message: String },
    /// The server could not be started.
    ServerStartError { message: String },
}

impl WebError {
    /// The text that reports the error.
    pub open spec fn message_text(&self) -> Seq<char> {
        match self {
            WebError::PortConflict { port } => "端口冲突: 端口 "@ + decimal_text(*port as nat)
                + " 已被占用"@,
            WebError::TemplateRenderError { message } => "模板渲染失败: "@ + message@,
            WebError::ServerStartError { message } => "服务器启动失败: "@ + message@,
        }
    }

    /// The text that reports the error.
    pub fn to_string(&self) -> (s: String)
        ensures
            s@ == self.message_text(),
    {
        match self {
            WebError::PortConflict { port } => {
                let digits = u64_to_text(*port as u64);
                let mut s = concat2("端口冲突: 端口 ", digits.as_str());
                s.append(" 已被占用");
                s
            },
            WebError::TemplateRenderError { message } => concat2("模板渲染失败: ", message.as_str()),
            WebError::ServerStartError { message } => concat2("服务器启动失败: ", message.as_str()),
        }
    }
}

/// The state of a service as the status page shows it.
#[derive(Debug)]
pub struct WebServiceStatus {
    /// The name of the service.
    pub name: String,
    /// The address of the service.
    pub url: String,
    /// `Online`, `Offline` or `Unknown`.
    pub status: String,
    /// How long the last probe took, in milliseconds.
    pub response_time_ms: Option<u64>,
    /// When the state was last brought up to date.
    pub last_check: Option<i64>,
    /// What went wrong, where the service is not online.
    pub error_message: Option<String>,
}

/// What a `WebServiceStatus` says.
pub struct WebServiceStatusView {
    pub name: Seq<char>,
    pub url: Seq<char>,
    pub status: Seq<char>,
    pub response_time_ms: Option<u64>,
    pub last_check: Option<i64>,
    pub error_message: Option<Seq<char>>,
}

impl View for WebServiceStatus {
    type V = WebServiceStatusView;

    open spec fn view(&self) -> WebServiceStatusView {
        WebServiceStatusView {
            name: self.name@,
            url: self.url@,
            status: self.status@,
            response_time_ms: self.response_time_ms,
            last_check: self.last_check,
            error_message: opt_text(self.error_message),
        }
    }
}

/// The word that the status page shows for a status. A degraded service
/// counts as offline.
pub open spec fn status_word(status: HealthStatus) -> Seq<char> {
    match status {
        HealthStatus::Up => "Online"@,
        HealthStatus::Down => "Offline"@,
        HealthStatus::Unknown => "Unknown"@,
        HealthStatus::Degraded => "Offline"@,
    }
}

/// The state that the status page shows after `status` came in at time
/// `now`, for a service it showed with the address `shown_url` before. The
/// error is kept only for a service that is not online; an empty address
/// does not replace the one that is shown.
pub open spec fn shown_status(
    shown_url: Seq<char>,
    status: ServiceStatusView,
    now: i64,
) -> WebServiceStatusView {
    WebServiceStatusView {
        name: status.name,
        url: if status.url.len() > 0 {
            status.url
        } else {
            shown_url
        },
        status: status_word(status.status),
        response_time_ms: status.response_time_ms,
        last_check: Some(now),
        error_message: if status.status == HealthStatus::Up {
            None
        } else {
            status.error_message
        },
    }
}

/// The word that the status page shows for a status.
pub fn status_label(status: HealthStatus) -> (r: String)
    ensures
        r@ == status_word(status),
{
    match status {
        HealthStatus::Up => "Online".to_string(),
        HealthStatus::Down => "Offline".to_string(),
        HealthStatus::Unknown => "Unknown".to_string(),
        HealthStatus::Degraded => "Offline".to_string(),
    }
}

/// Brings the state of one service up to date with `status`, which came in
/// at time `now`. `shown` is what the page showed of the service before, if
/// it showed it.
pub fn update_status(shown: Option<&WebServiceStatus>, status: &ServiceStatus, now: i64) -> (r:
    WebServiceStatus)
    ensures
        r@ == shown_status(
            match shown {
                Some(w) => w@.url,
                None => status@.url,
            },
            status@,
            now,
        ),
{
    let url = if !status.url.as_str().is_empty() {
        status.url.clone()
    } else {
        match shown {
            Some(w) => w.url.clone(),
            None => status.url.clone(),
        }
    };
    let error_message = if status.status.is_healthy() {
        None
    } else {
        status.error_message.clone()
    };
    WebServiceStatus {
        name: status.name.clone(),
        url,
        status: status_label(status.status),
        response_time_ms: status.response_time_ms,
        last_check: Some(now),
        error_message,
    }
}

/// How many services the page shows in each state.
#[derive(Clone, Copy, Debug, PartialEq, Eq, Structural)]
pub struct StatusCounts {
    /// How many are online.
    pub online: usize,
    /// How many are offline.
    pub offline: usize,
    /// How many are unknown.
    pub unknown: usize,
    /// How many there are.
    pub total: usize,
}

/// How many of the services are shown with the word `word`.
pub open spec fn count_word(services: Seq<WebServiceStatus>, word: Seq<char>) -> nat
    decreases services.len(),
{
    if services.len() == 0 {
        0
    } else {
        count_word(services.drop_last(), word) + if services.last().status@ == word {
            1nat
        } else {
            0nat
        }
    }
}

/// Counts the services in each state. The counts are over all services,
/// whatever the page is set to show.
pub fn count_statuses(services: &Vec<WebServiceStatus>) -> (c: StatusCounts)
    ensures
        c.online == count_word(services@, "Online"@),
        c.offline == count_word(services@, "Offline"@),
        c.unknown == count_word(services@, "Unknown"@),
        c.total == services@.len(),
{
    let mut online: usize = 0;
    let mut offline: usize = 0;
    let mut unknown: usize = 0;
    let mut i: usize = 0;
    assert(services@.subrange(0, 0) =~= Seq::<WebServiceStatus>::empty());
    while i < services.len()
        invariant
            i <= services.len(),
            online == count_word(services@.subrange(0, i as int), "Online"@),
            offline == count_word(services@.subrange(0, i as int), "Offline"@),
            unknown == count_word(services@.subrange(0, i as int), "Unknown"@),
            online <= i,
            offline <= i,
            unknown <= i,
        decreases services.len() - i,
    {
        proof {
            assert(services@.subrange(0, i + 1).drop_last() =~= services@.subrange(0, i as int));
            assert(services@.subrange(0, i + 1).last() == services@[i as int]);
        }
        let word = services[i].status.as_str();
        if str_equal(word, "Online") {
            online += 1;
        }
        if str_equal(word, "Offline") {
            offline += 1;
        }
        if str_equal(word, "Unknown") {
            unknown += 1;
        }
        i += 1;
    }
    assert(services@.subrange(0, services.len() as int) =~= services@);
    StatusCounts { online, offline, unknown, total: services.len() }
}

/// Whether the page shows a service when it is set to show problems only.
pub fn is_problem(service: &WebServiceStatus) -> (r: bool)
    ensures
        r == (service.status@ == "Offline"@ || service.status@ == "Unknown"@),
{
    str_equal(service.status.as_str(), "Offline") || str_equal(service.status.as_str(), "Unknown")
}

} // verus!
