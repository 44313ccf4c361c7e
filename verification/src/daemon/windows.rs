//! The monitor as a service of Windows.

use crate::daemon::DaemonStatus;
use vstd::prelude::*;

verus! {

/// The state of a service as the Windows service control manager tells it.
#[derive(Clone, Copy, Debug, PartialEq, Eq, Structural)]
pub enum WindowsServiceState {
    Running,
    Stopped,
    StartPending,
    StopPending,
    ContinuePending,
    PausePending,
    Paused,
}

/// Manages the monitor as a service of Windows.
#[derive(Clone, Copy, Debug, PartialEq, Eq, Structural)]
pub struct WindowsServiceManager;

impl WindowsServiceManager {
    /// A manager.
    pub fn new() -> (r: Self) {
        WindowsServiceManager
    }

    /// The state of the monitor for a state of the Windows service: what is
    /// about to run counts as starting, what is about to rest as stopping,
    /// and a paused service as stopped.
    pub fn windows_state_to_daemon_status(&self, state: WindowsServiceState) -> (r: DaemonStatus)
        ensures
            r == match state {
                WindowsServiceState::Running => DaemonStatus::Running,
                WindowsServiceState::Stopped => DaemonStatus::Stopped,
                WindowsServiceState::StartPending => DaemonStatus::Starting,
                WindowsServiceState::StopPending => DaemonStatus::Stopping,
                WindowsServiceState::ContinuePending => DaemonStatus::Starting,
                WindowsServiceState::PausePending => DaemonStatus::Stopping,
                WindowsServiceState::Paused => DaemonStatus::Stopped,
            },
    {
        match state {
            WindowsServiceState::Running => DaemonStatus::Running,
            WindowsServiceState::Stopped => DaemonStatus::Stopped,
            WindowsServiceState::StartPending => DaemonStatus::Starting,
            WindowsServiceState::StopPending => DaemonStatus::Stopping,
            WindowsServiceState::ContinuePending => DaemonStatus::Starting,
            WindowsServiceState::PausePending => DaemonStatus::Stopping,
            WindowsServiceState::Paused => DaemonStatus::Stopped,
        }
    }
}

} // verus!
