//! What is checked and advised before the system service is installed.

use crate::daemon::{DaemonConfig, DaemonStatus};
use crate::text::{concat2, contains, contains_text, str_equal};
use vstd::prelude::*;

verus! {

/// What the file system says of the paths in a `DaemonConfig`.
#[derive(Debug)]
pub struct PathFacts {
    /// Whether the program is there.
    pub executable_exists: bool,
    /// Whether the configuration file is there.
    pub config_exists: bool,
    /// Whether the working directory is there.
    pub working_directory_exists: bool,
    /// The directory of the process id file, where it has one that is
    /// missing.
    pub missing_pid_directory: Option<String>,
}

/// What is known of the system service.
#[derive(Debug)]
pub struct ServiceInfo {
    /// The name of the service.
    pub name: String,
    /// Its state.
    pub status: DaemonStatus,
    /// Whether it is installed.
    pub is_installed: bool,
    /// The platform it runs on.
    pub platform: String,
}

/// Checks and advises on the settings of the system service.
#[derive(Clone, Copy, Debug, PartialEq, Eq, Structural)]
pub struct ServiceManager;

/// The warnings for a configuration, in order: missing program, missing
/// configuration file, missing working directory, empty user, empty group,
/// missing directory of the process id file.
pub open spec fn config_warnings(config: DaemonConfig, facts: PathFacts) -> Seq<Seq<char>> {
    let a = if !facts.executable_exists {
        seq!["可执行文件不存在: "@ + config.executable_path@]
    } else {
        Seq::empty()
    };
    let b = if !facts.config_exists {
        seq!["配置文件不存在: "@ + config.config_path@]
    } else {
        Seq::empty()
    };
    let c = if !facts.working_directory_exists {
        seq!["工作目录不存在: "@ + config.working_directory@]
    } else {
        Seq::empty()
    };
    let d = if config.user is Some && config.user->0@.len() == 0 {
        seq!["用户名不能为空"@]
    } else {
        Seq::empty()
    };
    let e = if config.group is Some && config.group->0@.len() == 0 {
        seq!["组名不能为空"@]
    } else {
        Seq::empty()
    };
    let f = if config.pid_file is Some && facts.missing_pid_directory is Some {
        seq!["PID文件目录不存在: "@ + facts.missing_pid_directory->0@]
    } else {
        Seq::empty()
    };
    a + b + c + d + e + f
}

/// The advice for a configuration, in order: name a user, do not run as
/// root, configure a log file, keep out of temporary directories.
pub open spec fn config_suggestions(config: DaemonConfig) -> Seq<Seq<char>> {
    let a = if config.user is None {
        seq!["建议指定专用用户运行服务以提高安全性"@]
    } else {
        Seq::empty()
    };
    let b = if config.user is Some && config.user->0@ == "root"@ {
        seq!["不建议使用root用户运行服务"@]
    } else {
        Seq::empty()
    };
    let c = if config.log_file is None {
        seq!["建议配置日志文件以便问题排查"@]
    } else {
        Seq::empty()
    };
    let d = if contains_text(config.working_directory@, "tmp"@) {
        seq!["不建议使用临时目录作为工作目录"@]
    } else {
        Seq::empty()
    };
    a + b + c + d
}

/// The character sequences of a list of strings.
pub open spec fn lines_view(lines: Seq<String>) -> Seq<Seq<char>> {
    Seq::new(lines.len(), |i: int| lines[i]@)
}

fn push_line(lines: &mut Vec<String>, line: String)
    ensures
        lines_view(final(lines)@) == lines_view(old(lines)@) + seq![line@],
{
    lines.push(line);
    assert(lines_view(lines@) =~= lines_view(old(lines)@) + seq![line@]);
}

/// The state that `systemctl is-active` reports, from its output once it is
/// trimmed.
pub open spec fn systemd_state(word: Seq<char>) -> DaemonStatus {
    if word == "active"@ {
        DaemonStatus::Running
    } else if word == "inactive"@ {
        DaemonStatus::Stopped
    } else if word == "activating"@ {
        DaemonStatus::Starting
    } else if word == "deactivating"@ {
        DaemonStatus::Stopping
    } else {
        DaemonStatus::Unknown
    }
}

/// Reads the state that `systemctl is-active` reports from its trimmed
/// output.
pub fn parse_systemd_state(word: &str) -> (r: DaemonStatus)
    ensures
        r == systemd_state(word@),
{
    if str_equal(word, "active") {
        DaemonStatus::Running
    } else if str_equal(word, "inactive") {
        DaemonStatus::Stopped
    } else if str_equal(word, "activating") {
        DaemonStatus::Starting
    } else if str_equal(word, "deactivating") {
        DaemonStatus::Stopping
    } else {
        DaemonStatus::Unknown
    }
}

impl ServiceManager {
    /// A service manager.
    pub fn new() -> (r: Self) {
        ServiceManager
    }

    /// Warns of what is wrong with `config`, given what the file system
    /// says of its paths.
    pub fn validate_config(&self, config: &DaemonConfig, facts: &PathFacts) -> (warnings: Vec<
        String,
    >)
        ensures
            lines_view(warnings@) == config_warnings(*config, *facts),
    {
        let mut warnings: Vec<String> = Vec::new();
        assert(lines_view(warnings@) =~= Seq::<Seq<char>>::empty());
        if !facts.executable_exists {
            push_line(&mut warnings, concat2("可执行文件不存在: ", config.executable_path.as_str()));
        }
        if !facts.config_exists {
            push_line(&mut warnings, concat2("配置文件不存在: ", config.config_path.as_str()));
        }
        if !facts.working_directory_exists {
            push_line(&mut warnings, concat2("工作目录不存在: ", config.working_directory.as_str()));
        }
        match &config.user {
            Some(user) => {
                if user.as_str().is_empty() {
                    push_line(&mut warnings, "用户名不能为空".to_string());
                }
            },
            None => {},
        }
        match &config.group {
            Some(group) => {
                if group.as_str().is_empty() {
                    push_line(&mut warnings, "组名不能为空".to_string());
                }
            },
            None => {},
        }
        if config.pid_file.is_some() {
            match &facts.missing_pid_directory {
                Some(parent) => {
                    push_line(&mut warnings, concat2("PID文件目录不存在: ", parent.as_str()));
                },
                None => {},
            }
        }
        assert(lines_view(warnings@) =~= config_warnings(*config, *facts));
        warnings
    }

    /// Advises on how `config` could be better.
    pub fn suggest_config_improvements(&self, config: &DaemonConfig) -> (suggestions: Vec<String>)
        ensures
            lines_view(suggestions@) == config_suggestions(*config),
    {
        let mut suggestions: Vec<String> = Vec::new();
        assert(lines_view(suggestions@) =~= Seq::<Seq<char>>::empty());
        match &config.user {
            Some(user) => {
                if str_equal(user.as_str(), "root") {
                    push_line(&mut suggestions, "不建议使用root用户运行服务".to_string());
                }
            },
            None => {
                push_line(&mut suggestions, "建议指定专用用户运行服务以提高安全性".to_string());
            },
        }
        if config.log_file.is_none() {
            push_line(&mut suggestions, "建议配置日志文件以便问题排查".to_string());
        }
        if contains(config.working_directory.as_str(), "tmp") {
            push_line(&mut suggestions, "不建议使用临时目录作为工作目录".to_string());
        }
        assert(lines_view(suggestions@) =~= config_suggestions(*config));
        suggestions
    }
}

} // verus!
