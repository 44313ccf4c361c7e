//! The errors of the monitor, how grave each is, and what to do about it.

use crate::text::{concat2, decimal_text, u64_to_text};
use vstd::prelude::*;

verus! {

/// What can go wrong with a configuration.
#[derive(Debug)]
pub enum ConfigError {
    /// The text could not be parsed.
    ParseError(String),
    /// The configuration breaks a rule.
    ValidationError(String),
    /// The file is not there.
    FileNotFound { path: String },
    /// The text refers to an environment variable that is not set.
    EnvVarError { var: String },
}

impl ConfigError {
    /// The text that reports the error.
    pub open spec fn message_text(&self) -> Seq<char> {
        match self {
            ConfigError::ParseError(detail) => "配置文件解析失败: "@ + detail@,
            ConfigError::ValidationError(detail) => "配置验证失败: "@ + detail@,
            ConfigError::FileNotFound { path } => "配置文件不存在: "@ + path@,
            ConfigError::EnvVarError { var } => "环境变量替换失败: "@ + var@,
        }
    }

    /// The text that reports the error.
    pub fn to_string(&self) -> (s: String)
        ensures
            s@ == self.message_text(),
    {
        match self {
            ConfigError::ParseError(detail) => concat2("配置文件解析失败: ", detail.as_str()),
            ConfigError::ValidationError(detail) => concat2("配置验证失败: ", detail.as_str()),
            ConfigError::FileNotFound { path } => concat2("配置文件不存在: ", path.as_str()),
            ConfigError::EnvVarError { var } => concat2("环境变量替换失败: ", var.as_str()),
        }
    }
}

/// The first `n` codes in a row, with `, ` between them.
pub open spec fn codes_joined(codes: Seq<u16>, n: int) -> Seq<char>
    decreases n,
{
    if n <= 0 {
        Seq::empty()
    } else if n == 1 {
        decimal_text(codes[0] as nat)
    } else {
        codes_joined(codes, n - 1) + ", "@ + decimal_text(codes[n - 1] as nat)
    }
}

/// A list of codes in square brackets.
pub open spec fn codes_text(codes: Seq<u16>) -> Seq<char> {
    "["@ + codes_joined(codes, codes.len() as int) + "]"@
}

/// Writes a list of codes in square brackets.
pub fn format_codes(codes: &Vec<u16>) -> (s: String)
    ensures
        s@ == codes_text(codes@),
{
    let mut out = "[".to_string();
    let mut i: usize = 0;
    assert(out@ =~= "["@ + codes_joined(codes@, 0));
    while i < codes.len()
        invariant
            i <= codes.len(),
            out@ == "["@ + codes_joined(codes@, i as int),
        decreases codes.len() - i,
    {
        if i > 0 {
            out.append(", ");
        }
        let digits = u64_to_text(codes[i] as u64);
        out.append(digits.as_str());
        i += 1;
        assert(out@ =~= "["@ + codes_joined(codes@, i as int));
    }
    out.append("]");
    out
}

/// What can go wrong with a probe before it is even sent, or around it.
#[derive(Debug)]
pub enum HealthCheckError {
    /// The request could not be made; the text says why.
    RequestError(String),
    /// The request took too long.
    Timeout,
    /// The service answered with a status that was not expected.
    StatusCodeMismatch { expected: Vec<u16>, actual: u16 },
    /// The connection could not be set up.
    ConnectionError { url: String },
}

impl HealthCheckError {
    /// The text that reports the error.
    pub open spec fn message_text(&self) -> Seq<char> {
        match self {
            HealthCheckError::RequestError(detail) => "HTTP请求失败: "@ + detail@,
            HealthCheckError::Timeout => "请求超时"@,
            HealthCheckError::StatusCodeMismatch { expected, actual } => "状态码不匹配: 期望 "@
                + codes_text(expected@) + ", 实际 "@ + decimal_text(*actual as nat),
            HealthCheckError::ConnectionError { url } => "连接失败: "@ + url@,
        }
    }

    /// The text that reports the error.
    pub fn to_string(&self) -> (s: String)
        ensures
            s@ == self.message_text(),
    {
        match self {
            HealthCheckError::RequestError(detail) => concat2("HTTP请求失败: ", detail.as_str()),
            HealthCheckError::Timeout => "请求超时".to_string(),
            HealthCheckError::StatusCodeMismatch { expected, actual } => {
                let listed = format_codes(expected);
                let mut s = concat2("状态码不匹配: 期望 ", listed.as_str());
                s.append(", 实际 ");
                let digits = u64_to_text(*actual as u64);
                s.append(digits.as_str());
                s
            },
            HealthCheckError::ConnectionError { url } => concat2("连接失败: ", url.as_str()),
        }
    }
}

/// What can go wrong with a notification.
#[derive(Debug)]
pub enum NotificationError {
    /// The notification could not be sent.
    SendError(String),
    /// The message could not be rendered.
    TemplateError(String),
    /// The notifier is not configured as it must be.
    ConfigError(String),
}

impl NotificationError {
    /// The text that reports the error.
    pub open spec fn message_text(&self) -> Seq<char> {
        match self {
            NotificationError::SendError(detail) => "通知发送失败: "@ + detail@,
            NotificationError::TemplateError(detail) => "模板渲染失败: "@ + detail@,
            NotificationError::ConfigError(detail) => "通知配置错误: "@ + detail@,
        }
    }

    /// The text that reports the error.
    pub fn to_string(&self) -> (s: String)
        ensures
            s@ == self.message_text(),
    {
        match self {
            NotificationError::SendError(detail) => concat2("通知发送失败: ", detail.as_str()),
            NotificationError::TemplateError(detail) => concat2("模板渲染失败: ", detail.as_str()),
            NotificationError::ConfigError(detail) => concat2("通知配置错误: ", detail.as_str()),
        }
    }
}

/// How grave an error is.
#[derive(Clone, Copy, Debug, PartialEq, Eq, Structural)]
pub enum ErrorSeverity {
    /// The core keeps working.
    Low,
    /// Part of the work is affected.
    Medium,
    /// The core is affected.
    High,
    /// The program cannot go on.
    Critical,
}

/// What to do about an error.
#[derive(Clone, Copy, Debug, PartialEq, Eq, Structural)]
pub enum RecoveryStrategy {
    /// Nothing.
    Nothing,
    /// Try again.
    Retry,
    /// Leave the operation out.
    Skip,
    /// Go on with a default.
    UseDefault,
    /// Restart the component.
    RestartComponent,
    /// Stop the service.
    StopService,
}

/// Any error of the monitor. Errors of the operating system, of JSON and of
/// other origin are held by their text.
#[derive(Debug)]
pub enum ServiceVitalsError {
    /// A configuration error.
    Config(ConfigError),
    /// An error around a probe.
    HealthCheck(HealthCheckError),
    /// An error of the notifier.
    Notification(NotificationError),
    /// An error of the daemon.
    DaemonError(String),
    /// An error of input or output.
    Io(String),
    /// An error of JSON.
    Json(String),
    /// Any other error.
    Other(String),
}

impl ServiceVitalsError {
    /// How grave each error is.
    pub open spec fn severity_of(&self) -> ErrorSeverity {
        match self {
            ServiceVitalsError::Config(_) => ErrorSeverity::High,
            ServiceVitalsError::HealthCheck(e) => match e {
                HealthCheckError::StatusCodeMismatch { .. } => ErrorSeverity::Low,
                _ => ErrorSeverity::Medium,
            },
            ServiceVitalsError::Notification(_) => ErrorSeverity::Low,
            ServiceVitalsError::DaemonError(_) => ErrorSeverity::High,
            ServiceVitalsError::Io(_) => ErrorSeverity::High,
            ServiceVitalsError::Json(_) => ErrorSeverity::Medium,
            ServiceVitalsError::Other(_) => ErrorSeverity::Medium,
        }
    }

    /// What to do about each error.
    pub open spec fn strategy_of(&self) -> RecoveryStrategy {
        match self {
            ServiceVitalsError::Config(_) => RecoveryStrategy::StopService,
            ServiceVitalsError::HealthCheck(e) => match e {
                HealthCheckError::StatusCodeMismatch { .. } => RecoveryStrategy::Skip,
                _ => RecoveryStrategy::Retry,
            },
            ServiceVitalsError::Notification(_) => RecoveryStrategy::Retry,
            ServiceVitalsError::DaemonError(_) => RecoveryStrategy::StopService,
            ServiceVitalsError::Io(_) => RecoveryStrategy::UseDefault,
            ServiceVitalsError::Json(_) => RecoveryStrategy::Skip,
            ServiceVitalsError::Other(_) => RecoveryStrategy::Nothing,
        }
    }

    /// How grave the error is.
    pub fn severity(&self) -> (r: ErrorSeverity)
        ensures
            r == self.severity_of(),
    {
        match self {
            ServiceVitalsError::Config(_) => ErrorSeverity::High,
            ServiceVitalsError::HealthCheck(e) => match e {
                HealthCheckError::Timeout => ErrorSeverity::Medium,
                HealthCheckError::ConnectionError { .. } => ErrorSeverity::Medium,
                HealthCheckError::StatusCodeMismatch { .. } => ErrorSeverity::Low,
                HealthCheckError::RequestError(_) => ErrorSeverity::Medium,
            },
            ServiceVitalsError::Notification(_) => ErrorSeverity::Low,
            ServiceVitalsError::DaemonError(_) => ErrorSeverity::High,
            ServiceVitalsError::Io(_) => ErrorSeverity::High,
            ServiceVitalsError::Json(_) => ErrorSeverity::Medium,
            ServiceVitalsError::Other(_) => ErrorSeverity::Medium,
        }
    }

    /// What to do about the error.
    pub fn recovery_strategy(&self) -> (r: RecoveryStrategy)
        ensures
            r == self.strategy_of(),
    {
        match self {
            ServiceVitalsError::Config(_) => RecoveryStrategy::StopService,
            ServiceVitalsError::HealthCheck(e) => match e {
                HealthCheckError::Timeout => RecoveryStrategy::Retry,
                HealthCheckError::ConnectionError { .. } => RecoveryStrategy::Retry,
                HealthCheckError::StatusCodeMismatch { .. } => RecoveryStrategy::Skip,
                HealthCheckError::RequestError(_) => RecoveryStrategy::Retry,
            },
            ServiceVitalsError::Notification(_) => RecoveryStrategy::Retry,
            ServiceVitalsError::DaemonError(_) => RecoveryStrategy::StopService,
            ServiceVitalsError::Io(_) => RecoveryStrategy::UseDefault,
            ServiceVitalsError::Json(_) => RecoveryStrategy::Skip,
            ServiceVitalsError::Other(_) => RecoveryStrategy::Nothing,
        }
    }

    /// Whether trying again, or going on with a default, is the thing to do.
    pub fn is_retryable(&self) -> (r: bool)
        ensures
            r == (self.strategy_of() == RecoveryStrategy::Retry || self.strategy_of()
                == RecoveryStrategy::UseDefault),
    {
        matches!(self.recovery_strategy(), RecoveryStrategy::Retry | RecoveryStrategy::UseDefault)
    }

    /// Whether the program cannot go on. No error of the monitor is that
    /// grave.
    pub fn is_fatal(&self) -> (r: bool)
        ensures
            r == (self.severity_of() == ErrorSeverity::Critical),
            !r,
    {
        matches!(self.severity(), ErrorSeverity::Critical)
    }
}

} // verus!
