//! The arguments of the command line, as plain values.

use vstd::prelude::*;

verus! {

/// How much is logged.
#[derive(Clone, Copy, Debug, PartialEq, Eq, Structural)]
pub enum LogLevel {
    /// Everything.
    Debug,
    /// What happens.
    Info,
    /// What may be wrong.
    Warn,
    /// What is wrong.
    Error,
}

impl LogLevel {
    /// The name of the level as configurations write it.
    pub open spec fn name(self) -> Seq<char> {
        match self {
            LogLevel::Debug => "debug"@,
            LogLevel::Info => "info"@,
            LogLevel::Warn => "warn"@,
            LogLevel::Error => "error"@,
        }
    }

    /// The name of the level as configurations write it.
    pub fn to_string(&self) -> (s: String)
        ensures
            s@ == self.name(),
    {
        match self {
            LogLevel::Debug => "debug".to_string(),
            LogLevel::Info => "info".to_string(),
            LogLevel::Warn => "warn".to_string(),
            LogLevel::Error => "error".to_string(),
        }
    }
}

/// How output is laid out.
#[derive(Clone, Copy, Debug, PartialEq, Eq, Structural)]
pub enum OutputFormat {
    /// Plain text.
    Text,
    /// JSON.
    Json,
    /// YAML.
    Yaml,
    /// A table.
    Table,
}

/// Which configuration template `init` writes.
#[derive(Clone, Copy, Debug, PartialEq, Eq, Structural)]
pub enum ConfigTemplate {
    /// The usual settings.
    Basic,
    /// Every setting.
    Full,
    /// As little as will do.
    Minimal,
}

/// Which notifier to test.
#[derive(Clone, Copy, Debug, PartialEq, Eq, Structural)]
pub enum NotificationType {
    /// The Feishu webhook.
    Feishu,
    /// Mail.
    Email,
    /// A plain webhook.
    Webhook,
}

/// What the monitor is asked to do.
#[derive(Debug)]
#[allow(inconsistent_fields)]
pub enum Commands {
    /// Start monitoring.
    Start { foreground: bool, interval: Option<u64>, max_concurrent: Option<usize> },
    /// Stop monitoring.
    Stop { force: bool, timeout: u64 },
    /// Stop and start again.
    Restart { foreground: bool, timeout: u64 },
    /// Show how the services are doing.
    Status { format: OutputFormat, verbose: bool },
    /// Probe once.
    Check { service: Option<String>, format: OutputFormat, timeout: u64 },
    /// Write a configuration file.
    Init { config_path: String, force: bool, template: ConfigTemplate },
    /// Validate a configuration file.
    Validate { config_path: Option<String>, verbose: bool },
    /// Show the version.
    Version { format: OutputFormat },
    /// Send a test notification.
    TestNotification { notification_type: NotificationType, message: String },
    /// Install the system service.
    Install {
        service_name: String,
        display_name: String,
        description: String,
        user: Option<String>,
        group: Option<String>,
    },
    /// Remove the system service.
    Uninstall { service_name: String },
    /// Start the system service.
    StartService { service_name: String },
    /// Stop the system service.
    StopService { service_name: String },
    /// Restart the system service.
    RestartService { service_name: String },
    /// Show the state of the system service.
    ServiceStatus { service_name: String, format: OutputFormat },
}

/// The arguments of one invocation.
#[derive(Debug)]
pub struct Args {
    /// The configuration file, where one is named.
    pub config: Option<String>,
    /// How much is logged.
    pub log_level: LogLevel,
    /// Whether output is verbose.
    pub verbose: bool,
    /// Whether to run as a daemon.
    pub daemon: bool,
    /// Where the daemon writes its process id.
    pub pid_file: Option<String>,
    /// The working directory.
    pub workdir: Option<String>,
    /// What to do.
    pub command: Commands,
}

impl Args {
    /// The configuration file to use: the one that was named, else
    /// `default_path`.
    pub fn get_config_path(&self, default_path: String) -> (path: String)
        ensures
            path@ == match self.config {
                Some(named) => named@,
                None => default_path@,
            },
    {
        match &self.config {
            Some(named) => named.clone(),
            None => default_path,
        }
    }

    /// Whether output is verbose: it was asked for, or the log level is
    /// `Debug`.
    pub fn is_verbose(&self) -> (r: bool)
        ensures
            r == (self.verbose || self.log_level == LogLevel::Debug),
    {
        self.verbose || matches!(self.log_level, LogLevel::Debug)
    }
}

} // verus!
