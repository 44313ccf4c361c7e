//! The alert state machine of one service: failures in a row, the alert at
//! the threshold, the cooldown between repeated alerts, and the recovery.

use crate::health::result::HealthStatus;
use vstd::prelude::*;

verus! {

/// What the alert state machine remembers of one service.
#[derive(Clone, Copy, Debug, PartialEq, Eq, Structural)]
pub struct ServiceNotificationState {
    /// The status seen by the last probe.
    pub last_health_status: Option<HealthStatus>,
    /// When the last alert was delivered, on the scheduler's clock.
    pub last_notification_time: Option<u64>,
    /// How many probes have failed in a row.
    pub consecutive_failures: u32,
    /// How many alerts were delivered.
    pub notification_count: u32,
    /// The earliest time at which a repeated alert may go out.
    pub alert_cooldown_until: Option<u64>,
}

/// What the notifier is asked to do after a probe.
#[derive(Clone, Copy, Debug, PartialEq, Eq, Structural)]
pub enum AlertAction {
    /// Nothing.
    NoAction,
    /// Announce that the service is failing.
    SendAlert,
    /// Announce that the service is back.
    SendRecovery,
}

/// The state of a service that was never probed.
pub open spec fn fresh_state() -> ServiceNotificationState {
    ServiceNotificationState {
        last_health_status: None,
        last_notification_time: None,
        consecutive_failures: 0,
        notification_count: 0,
        alert_cooldown_until: None,
    }
}

/// Whether a failing probe at time `now` that brings the failures in a row
/// to `count` raises an alert: at the threshold always, beyond it only where
/// no cooldown is running.
pub open spec fn alert_due(
    count: int,
    threshold: u32,
    cooldown_until: Option<u64>,
    now: u64,
) -> bool {
    count >= threshold && (count == threshold || match cooldown_until {
        Some(until) => now >= until,
        None => true,
    })
}

/// What a probe with status `status` at time `now` asks of the notifier, for
/// a service with the given threshold, in state `st`.
pub open spec fn step_action(
    st: ServiceNotificationState,
    threshold: u32,
    status: HealthStatus,
    now: u64,
) -> AlertAction {
    if status == HealthStatus::Up {
        if st.consecutive_failures > 0 {
            AlertAction::SendRecovery
        } else {
            AlertAction::NoAction
        }
    } else if alert_due(st.consecutive_failures + 1, threshold, st.alert_cooldown_until, now) {
        AlertAction::SendAlert
    } else {
        AlertAction::NoAction
    }
}

/// The state after a probe with status `status` at time `now`.
pub open spec fn step_state(
    st: ServiceNotificationState,
    threshold: u32,
    cooldown_secs: u64,
    status: HealthStatus,
    now: u64,
) -> ServiceNotificationState {
    if status == HealthStatus::Up {
        ServiceNotificationState {
            last_health_status: Some(status),
            consecutive_failures: 0,
            alert_cooldown_until: if st.consecutive_failures > 0 {
                None
            } else {
                st.alert_cooldown_until
            },
            ..st
        }
    } else {
        let count = st.consecutive_failures + 1;
        ServiceNotificationState {
            last_health_status: Some(status),
            consecutive_failures: count as u32,
            alert_cooldown_until: if count > threshold && alert_due(
                count,
                threshold,
                st.alert_cooldown_until,
                now,
            ) {
                Some((now + cooldown_secs) as u64)
            } else {
                st.alert_cooldown_until
            },
            ..st
        }
    }
}

/// Whether a probe with status `status` at time `now` can be counted without
/// leaving the range of the counters.
pub open spec fn step_fits(
    st: ServiceNotificationState,
    cooldown_secs: u64,
    status: HealthStatus,
    now: u64,
) -> bool {
    status != HealthStatus::Up ==> st.consecutive_failures < u32::MAX && now + cooldown_secs
        <= u64::MAX
}

/// The state after the notifier reported on an action taken at time `now`:
/// a delivered alert is counted and its time kept, anything else leaves the
/// state as it is.
pub open spec fn delivery_state(
    st: ServiceNotificationState,
    action: AlertAction,
    delivered: bool,
    now: u64,
) -> ServiceNotificationState {
    if action == AlertAction::SendAlert && delivered {
        ServiceNotificationState {
            notification_count: (st.notification_count + 1) as u32,
            last_notification_time: Some(now),
            ..st
        }
    } else {
        st
    }
}

impl Default for ServiceNotificationState {
    fn default() -> (r: Self)
        ensures
            r == fresh_state(),
    {
        ServiceNotificationState {
            last_health_status: None,
            last_notification_time: None,
            consecutive_failures: 0,
            notification_count: 0,
            alert_cooldown_until: None,
        }
    }
}

impl ServiceNotificationState {
    /// Takes in the status of a probe made at time `now`, for a service with
    /// the given failure threshold and cooldown, and says what to ask of the
    /// notifier.
    ///
    /// A healthy probe after failures asks for a recovery notice and clears
    /// the failures and the cooldown. A failing probe is counted; at the
    /// threshold it asks for an alert at once, beyond it only where no
    /// cooldown is running, and each alert beyond the threshold starts a new
    /// cooldown.
    pub fn observe(&mut self, threshold: u32, cooldown_secs: u64, status: HealthStatus, now: u64) -> (action:
        AlertAction)
        requires
            step_fits(*old(self), cooldown_secs, status, now),
        ensures
            action == step_action(*old(self), threshold, status, now),
            *final(self) == step_state(*old(self), threshold, cooldown_secs, status, now),
    {
        let mut action = AlertAction::NoAction;
        if status.is_healthy() {
            if self.consecutive_failures > 0 {
                action = AlertAction::SendRecovery;
                self.consecutive_failures = 0;
                self.alert_cooldown_until = None;
            }
        } else {
            self.consecutive_failures = self.consecutive_failures + 1;
            if self.consecutive_failures >= threshold {
                let first = self.consecutive_failures == threshold;
                let can_alert = first || match self.alert_cooldown_until {
                    Some(until) => now >= until,
                    None => true,
                };
                if can_alert {
                    action = AlertAction::SendAlert;
                    if !first {
                        self.alert_cooldown_until = Some(now + cooldown_secs);
                    }
                }
            }
        }
        self.last_health_status = Some(status);
        action
    }

    /// Takes in what the notifier reported on an action taken at time `now`.
    pub fn record_delivery(&mut self, action: AlertAction, delivered: bool, now: u64)
        requires
            old(self).notification_count < u32::MAX,
        ensures
            *final(self) == delivery_state(*old(self), action, delivered, now),
    {
        if action == AlertAction::SendAlert && delivered {
            self.notification_count = self.notification_count + 1;
            self.last_notification_time = Some(now);
        }
    }
}

/// One probe as the state machine sees it: its status and its time.
pub struct Observation {
    pub status: HealthStatus,
    pub now: u64,
}

/// The state after a run of probes, starting from `st`.
pub open spec fn run_state(
    st: ServiceNotificationState,
    threshold: u32,
    cooldown_secs: u64,
    probes: Seq<Observation>,
) -> ServiceNotificationState
    decreases probes.len(),
{
    if probes.len() == 0 {
        st
    } else {
        step_state(
            run_state(st, threshold, cooldown_secs, probes.drop_last()),
            threshold,
            cooldown_secs,
            probes.last().status,
            probes.last().now,
        )
    }
}

/// What the last probe of a run asks of the notifier.
pub open spec fn run_action(
    st: ServiceNotificationState,
    threshold: u32,
    cooldown_secs: u64,
    probes: Seq<Observation>,
) -> AlertAction
    recommends
        probes.len() > 0,
{
    step_action(
        run_state(st, threshold, cooldown_secs, probes.drop_last()),
        threshold,
        probes.last().status,
        probes.last().now,
    )
}

/// How many alerts a run of probes asks for.
pub open spec fn alerts_in_run(
    st: ServiceNotificationState,
    threshold: u32,
    cooldown_secs: u64,
    probes: Seq<Observation>,
) -> nat
    decreases probes.len(),
{
    if probes.len() == 0 {
        0
    } else {
        let before = alerts_in_run(st, threshold, cooldown_secs, probes.drop_last());
        if run_action(st, threshold, cooldown_secs, probes) == AlertAction::SendAlert {
            before + 1
        } else {
            before
        }
    }
}

/// Whether no probe of the run is healthy.
pub open spec fn all_failing(probes: Seq<Observation>) -> bool {
    forall|i: int| 0 <= i < probes.len() ==> (#[trigger] probes[i]).status != HealthStatus::Up
}

/// Failing probes short of the threshold are counted and ask for nothing.
pub proof fn lemma_below_threshold(
    st: ServiceNotificationState,
    threshold: u32,
    cooldown_secs: u64,
    probes: Seq<Observation>,
)
    requires
        st.consecutive_failures == 0,
        all_failing(probes),
        probes.len() < threshold,
    ensures
        run_state(st, threshold, cooldown_secs, probes).consecutive_failures == probes.len(),
        run_state(st, threshold, cooldown_secs, probes).alert_cooldown_until
            == st.alert_cooldown_until,
        alerts_in_run(st, threshold, cooldown_secs, probes) == 0,
    decreases probes.len(),
{
    if probes.len() > 0 {
        let head = probes.drop_last();
        assert forall|i: int| 0 <= i < head.len() implies (#[trigger] head[i]).status
            != HealthStatus::Up by {
            assert(head[i] == probes[i]);
        }
        lemma_below_threshold(st, threshold, cooldown_secs, head);
    }
}

/// The first crossing of the threshold notifies at once: of as many failing
/// probes in a row as the threshold asks for, starting with no failure
/// counted, the last one asks for an alert, whatever the clock says and
/// whatever cooldown was left over, and none before it does.
pub proof fn lemma_first_failure_immediate(
    st: ServiceNotificationState,
    threshold: u32,
    cooldown_secs: u64,
    probes: Seq<Observation>,
)
    requires
        st.consecutive_failures == 0,
        threshold >= 1,
        all_failing(probes),
        probes.len() == threshold,
    ensures
        run_action(st, threshold, cooldown_secs, probes) == AlertAction::SendAlert,
        alerts_in_run(st, threshold, cooldown_secs, probes) == 1,
        run_state(st, threshold, cooldown_secs, probes).alert_cooldown_until
            == st.alert_cooldown_until,
{
    let head = probes.drop_last();
    assert forall|i: int| 0 <= i < head.len() implies (#[trigger] head[i]).status
        != HealthStatus::Up by {
        assert(head[i] == probes[i]);
    }
    lemma_below_threshold(st, threshold, cooldown_secs, head);
    assert(probes.last() == probes[probes.len() - 1]);
}

/// Beyond the threshold the cooldown decides: a failing probe asks for an
/// alert exactly when no deadline is set or the clock has reached it, and the
/// alert sets the next deadline one cooldown after the probe, which is not
/// before the deadline it replaces. A probe that is held back leaves the
/// deadline alone.
pub proof fn lemma_cooldown_then_emit(
    st: ServiceNotificationState,
    threshold: u32,
    cooldown_secs: u64,
    status: HealthStatus,
    now: u64,
)
    requires
        status != HealthStatus::Up,
        st.consecutive_failures >= threshold,
        step_fits(st, cooldown_secs, status, now),
    ensures
        step_action(st, threshold, status, now) == AlertAction::SendAlert <==> (
        st.alert_cooldown_until matches Some(until) ==> now >= until),
        step_action(st, threshold, status, now) == AlertAction::SendAlert ==> step_state(
            st,
            threshold,
            cooldown_secs,
            status,
            now,
        ).alert_cooldown_until == Some((now + cooldown_secs) as u64) && (
        st.alert_cooldown_until matches Some(until) ==> now + cooldown_secs >= until),
        step_action(st, threshold, status, now) != AlertAction::SendAlert ==> step_state(
            st,
            threshold,
            cooldown_secs,
            status,
            now,
        ).alert_cooldown_until == st.alert_cooldown_until,
{
}

/// An alert is only ever asked for with a failure counted.
pub proof fn lemma_alert_counts_failure(
    st: ServiceNotificationState,
    threshold: u32,
    cooldown_secs: u64,
    status: HealthStatus,
    now: u64,
)
    requires
        step_fits(st, cooldown_secs, status, now),
        step_action(st, threshold, status, now) == AlertAction::SendAlert,
    ensures
        step_state(st, threshold, cooldown_secs, status, now).consecutive_failures > 0,
{
}

/// Recovery resets: with failures counted, as after any alert, a healthy
/// probe asks for exactly one recovery notice and leaves no failure counted
/// and no cooldown; the healthy probe after it asks for nothing.
pub proof fn lemma_recovery_reset(
    st: ServiceNotificationState,
    threshold: u32,
    cooldown_secs: u64,
    now: u64,
    later: u64,
)
    requires
        st.consecutive_failures > 0,
    ensures
        step_action(st, threshold, HealthStatus::Up, now) == AlertAction::SendRecovery,
        step_state(st, threshold, cooldown_secs, HealthStatus::Up, now).consecutive_failures == 0,
        step_state(st, threshold, cooldown_secs, HealthStatus::Up, now).alert_cooldown_until
            is None,
        step_action(
            step_state(st, threshold, cooldown_secs, HealthStatus::Up, now),
            threshold,
            HealthStatus::Up,
            later,
        ) == AlertAction::NoAction,
{
}

} // verus!
