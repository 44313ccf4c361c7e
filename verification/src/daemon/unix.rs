//! The systemd unit of the monitor.

use crate::daemon::{DaemonConfig, DaemonStatus};
use crate::text::concat3;
use vstd::prelude::*;

verus! {

/// The head of the unit file, up to the description.
pub const UNIT_HEAD: &'static str = "[Unit]\nDescription=";

/// What follows the description, up to the command line.
pub const UNIT_SERVICE: &'static str =
    "\nAfter=network.target\nWants=network.target\n\n[Service]\nType=simple\nExecStart=";

/// What follows the command line.
pub const UNIT_RESTART: &'static str =
    " start \nExecReload=/bin/kill -USR1 $MAINPID\nRestart=always\nRestartSec=5\nKillMode=mixed\nTimeoutStopSec=30\n";

/// The end of the unit file.
pub const UNIT_TAIL: &'static str =
    "\n# Security settings\nNoNewPrivileges=true\nProtectSystem=strict\nProtectHome=true\nReadWritePaths=/var/lib/service-vitals /var/log /tmp\nPrivateTmp=true\nProtectKernelTunables=true\nProtectKernelModules=true\nProtectControlGroups=true\n\n[Install]\nWantedBy=multi-user.target\n";

/// A line `key` `value` and a line break, or nothing where there is no value.
pub open spec fn optional_line(key: Seq<char>, value: Option<String>) -> Seq<char> {
    match value {
        Some(v) => key + v@ + "\n"@,
        None => Seq::empty(),
    }
}

/// The two lines that send output and errors to the log file.
pub open spec fn log_lines(log_file: Option<String>) -> Seq<char> {
    match log_file {
        Some(f) => "StandardOutput=append:"@ + f@ + "\nStandardError=append:"@ + f@ + "\n"@,
        None => Seq::empty(),
    }
}

/// The systemd unit for `config`.
pub open spec fn systemd_unit(config: DaemonConfig) -> Seq<char> {
    UNIT_HEAD@ + config.description@ + UNIT_SERVICE@ + config.executable_path@ + " --config "@
        + config.config_path@ + UNIT_RESTART@ + optional_line("User="@, config.user)
        + optional_line("Group="@, config.group) + "WorkingDirectory="@ + config.working_directory@
        + "\n"@ + optional_line("PIDFile="@, config.pid_file) + log_lines(config.log_file)
        + UNIT_TAIL@
}

/// Manages the monitor as a service of a Unix system.
#[derive(Clone, Copy, Debug, PartialEq, Eq, Structural)]
pub struct UnixDaemonManager {
    /// Whether systemd is there to manage the service.
    pub use_systemd: bool,
}

fn append_optional(out: &mut String, key: &str, value: &Option<String>)
    ensures
        final(out)@ == old(out)@ + optional_line(key@, *value),
{
    match value {
        Some(v) => {
            out.append(key);
            out.append(v.as_str());
            out.append("\n");
            assert(out@ =~= old(out)@ + optional_line(key@, *value));
        },
        None => {
            assert(out@ =~= old(out)@ + optional_line(key@, *value));
        },
    }
}

impl UnixDaemonManager {
    /// A manager for a system with or without systemd.
    pub fn new(use_systemd: bool) -> (r: Self)
        ensures
            r.use_systemd == use_systemd,
    {
        UnixDaemonManager { use_systemd }
    }

    /// Where the unit file of the service named `service_name` lives.
    pub fn get_systemd_service_path(&self, service_name: &str) -> (path: String)
        ensures
            path@ == "/etc/systemd/system/"@ + service_name@ + ".service"@,
    {
        concat3("/etc/systemd/system/", service_name, ".service")
    }

    /// The unit file for `config`.
    pub fn generate_systemd_service(&self, config: &DaemonConfig) -> (unit: String)
        ensures
            unit@ == systemd_unit(*config),
    {
        let mut out = UNIT_HEAD.to_string();
        out.append(config.description.as_str());
        out.append(UNIT_SERVICE);
        out.append(config.executable_path.as_str());
        out.append(" --config ");
        out.append(config.config_path.as_str());
        out.append(UNIT_RESTART);
        append_optional(&mut out, "User=", &config.user);
        append_optional(&mut out, "Group=", &config.group);
        out.append("WorkingDirectory=");
        out.append(config.working_directory.as_str());
        out.append("\n");
        append_optional(&mut out, "PIDFile=", &config.pid_file);
        match &config.log_file {
            Some(f) => {
                out.append("StandardOutput=append:");
                out.append(f.as_str());
                out.append("\nStandardError=append:");
                out.append(f.as_str());
                out.append("\n");
            },
            None => {},
        }
        let ghost before_tail = out@;
        out.append(UNIT_TAIL);
        proof {
            let body = UNIT_HEAD@ + config.description@ + UNIT_SERVICE@ + config.executable_path@
                + " --config "@ + config.config_path@ + UNIT_RESTART@ + optional_line(
                "User="@,
                config.user,
            ) + optional_line("Group="@, config.group) + "WorkingDirectory="@
                + config.working_directory@ + "\n"@ + optional_line("PIDFile="@, config.pid_file)
                + log_lines(config.log_file);
            assert(before_tail =~= body);
        }
        out
    }

    /// The state of a service that is not run by systemd, given whether the
    /// process of its process id file is alive.
    pub fn get_traditional_daemon_status(&self, config: &DaemonConfig, process_alive: bool) -> (r:
        DaemonStatus)
        ensures
            r == if config.pid_file is None {
                DaemonStatus::Unknown
            } else if process_alive {
                DaemonStatus::Running
            } else {
                DaemonStatus::Stopped
            },
    {
        if config.pid_file.is_some() {
            if process_alive {
                DaemonStatus::Running
            } else {
                DaemonStatus::Stopped
            }
        } else {
            DaemonStatus::Unknown
        }
    }
}

} // verus!
