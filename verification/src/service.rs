//! What is decided when the monitor starts: whether it runs as a daemon,
//! with which daemon settings, and which settings the command line
//! overrides.

use crate::cli::args::Args;
use crate::config::types::{Config, ConfigView, GlobalConfigView};
use crate::config::validation::{config_valid, first_violation, validate_config, violation_message};
use crate::daemon::DaemonConfig;
use vstd::prelude::*;

verus! {

/// Whether the monitor is to run as a daemon: it was asked to, and not to
/// stay in the foreground.
pub fn should_daemonize(args: &Args, foreground: bool) -> (r: bool)
    ensures
        r == (args.daemon && !foreground),
{
    args.daemon && !foreground
}

/// The configuration with the settings that the command line overrides.
pub open spec fn overridden(
    c: ConfigView,
    interval: Option<u64>,
    max_concurrent: Option<usize>,
) -> ConfigView {
    ConfigView {
        global: GlobalConfigView {
            check_interval_seconds: match interval {
                Some(secs) => secs,
                None => c.global.check_interval_seconds,
            },
            max_concurrent_checks: match max_concurrent {
                Some(n) => n,
                None => c.global.max_concurrent_checks,
            },
            ..c.global
        },
        ..c
    }
}

/// Applies the settings that the command line overrides to a loaded
/// configuration and validates what comes out.
pub fn load_and_validate_config(
    config: Config,
    interval: Option<u64>,
    max_concurrent: Option<usize>,
) -> (r: Result<Config, String>)
    ensures
        match r {
            Ok(c) => c@ == overridden(config@, interval, max_concurrent) && config_valid(c@),
            Err(m) => {
                let c = overridden(config@, interval, max_concurrent);
                !config_valid(c) && first_violation(c) is Some && m@ == "配置验证失败: "@
                    + violation_message(c, first_violation(c)->0)
            },
        },
{
    let mut config = config;
    match interval {
        Some(secs) => {
            config.global.check_interval_seconds = secs;
        },
        None => {},
    }
    match max_concurrent {
        Some(n) => {
            config.global.max_concurrent_checks = n;
        },
        None => {},
    }
    match validate_config(&config) {
        Ok(_) => Ok(config),
        Err(m) => Err(crate::text::concat2("配置验证失败: ", m.as_str())),
    }
}

/// The settings of the daemon for an invocation: those for development
/// where the command line names a working directory or a process id file,
/// else the usual ones; then the configuration file, and whatever the
/// command line names. `config_path` is the configuration file to use and
/// `current_directory` the directory the monitor was started in.
pub fn daemon_config_for(args: &Args, config_path: String, current_directory: String) -> (r:
    DaemonConfig)
    ensures
        r.config_path@ == config_path@,
        r.working_directory@ == match args.workdir {
            Some(dir) => dir@,
            None => if args.pid_file is Some {
                current_directory@
            } else {
                "/var/lib/service-vitals"@
            },
        },
        r.pid_file is Some,
        r.pid_file->0@ == match args.pid_file {
            Some(file) => file@,
            None => if args.workdir is Some {
                "./service-vitals.pid"@
            } else {
                "/var/run/service-vitals.pid"@
            },
        },
        r.user is None <==> (args.workdir is Some || args.pid_file is Some),
        r.user is Some ==> r.user->0@ == "service-vitals"@,
        r.group is None <==> (args.workdir is Some || args.pid_file is Some),
        r.group is Some ==> r.group->0@ == "service-vitals"@,
        r.log_file is Some,
        r.log_file->0@ == if args.workdir is Some || args.pid_file is Some {
            "./service-vitals.log"@
        } else {
            "/var/log/service-vitals.log"@
        },
        r.service_name@ == "service-vitals"@,
        r.display_name@ == "Service Vitals Monitor"@,
        r.description@ == "Service health monitoring and alerting system"@,
        r.executable_path@ == "service-vitals"@,
{
    let mut config = if args.workdir.is_some() || args.pid_file.is_some() {
        DaemonConfig::for_development(current_directory)
    } else {
        DaemonConfig::default()
    };
    config.config_path = config_path;
    match &args.workdir {
        Some(dir) => {
            config.working_directory = dir.clone();
        },
        None => {},
    }
    match &args.pid_file {
        Some(file) => {
            config.pid_file = Some(file.clone());
        },
        None => {},
    }
    config
}

} // verus!
