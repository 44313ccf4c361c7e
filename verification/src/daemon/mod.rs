//! Running as a system service: its settings, its states, and what is
//! checked and advised before it is installed.

pub mod service_manager;
pub mod unix;
pub mod windows;

use vstd::prelude::*;

verus! {

/// The settings of the system service.
#[derive(Debug)]
pub struct DaemonConfig {
    /// The name of the service.
    pub service_name: String,
    /// The name shown to people.
    pub display_name: String,
    /// What the service does, in words.
    pub description: String,
    /// The program to run.
    pub executable_path: String,
    /// The configuration file.
    pub config_path: String,
    /// The working directory.
    pub working_directory: String,
    /// Where the process id is written.
    pub pid_file: Option<String>,
    /// Where the log goes.
    pub log_file: Option<String>,
    /// The user to run as.
    pub user: Option<String>,
    /// The group to run as.
    pub group: Option<String>,
}

impl Default for DaemonConfig {
    fn default() -> (r: Self)
        ensures
            r.service_name@ == "service-vitals"@,
            r.display_name@ == "Service Vitals Monitor"@,
            r.description@ == "Service health monitoring and alerting system"@,
            r.executable_path@ == "service-vitals"@,
            r.config_path@ == "/etc/service-vitals/config.toml"@,
            r.working_directory@ == "/var/lib/service-vitals"@,
            r.pid_file is Some && r.pid_file->0@ == "/var/run/service-vitals.pid"@,
            r.log_file is Some && r.log_file->0@ == "/var/log/service-vitals.log"@,
            r.user is Some && r.user->0@ == "service-vitals"@,
            r.group is Some && r.group->0@ == "service-vitals"@,
    {
        DaemonConfig {
            service_name: "service-vitals".to_string(),
            display_name: "Service Vitals Monitor".to_string(),
            description: "Service health monitoring and alerting system".to_string(),
            executable_path: "service-vitals".to_string(),
            config_path: "/etc/service-vitals/config.toml".to_string(),
            working_directory: "/var/lib/service-vitals".to_string(),
            pid_file: Some("/var/run/service-vitals.pid".to_string()),
            log_file: Some("/var/log/service-vitals.log".to_string()),
            user: Some("service-vitals".to_string()),
            group: Some("service-vitals".to_string()),
        }
    }
}

impl DaemonConfig {
    /// Settings for development: everything lives under `working_directory`,
    /// and the service runs as whoever starts it.
    pub fn for_development(working_directory: String) -> (r: Self)
        ensures
            r.service_name@ == "service-vitals"@,
            r.display_name@ == "Service Vitals Monitor"@,
            r.description@ == "Service health monitoring and alerting system"@,
            r.executable_path@ == "service-vitals"@,
            r.config_path@ == "./config.toml"@,
            r.working_directory@ == working_directory@,
            r.pid_file is Some && r.pid_file->0@ == "./service-vitals.pid"@,
            r.log_file is Some && r.log_file->0@ == "./service-vitals.log"@,
            r.user is None,
            r.group is None,
    {
        let mut config = DaemonConfig::default();
        config.config_path = "./config.toml".to_string();
        config.working_directory = working_directory;
        config.pid_file = Some("./service-vitals.pid".to_string());
        config.log_file = Some("./service-vitals.log".to_string());
        config.user = None;
        config.group = None;
        config
    }
}

/// The state of the system service.
#[derive(Clone, Copy, Debug, PartialEq, Eq, Structural)]
pub enum DaemonStatus {
    /// It runs.
    Running,
    /// It does not run.
    Stopped,
    /// Nobody knows.
    Unknown,
    /// It is starting.
    Starting,
    /// It is stopping.
    Stopping,
}

} // verus!
