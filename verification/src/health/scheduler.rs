//! The scheduler's bookkeeping: which services have a running task, how many
//! probes are in flight, and what each probe's outcome does to the alert
//! state of its service.
//!
//! The scheduler decides and its caller acts: starting, stopping and
//! reloading hand back the tasks to spawn and to cancel; each task asks
//! before it probes and reports when it is done.

use crate::config::manager::{ConfigDiff, ConfigDiffView, ConfigUpdateNotification};
use crate::config::types::{
    services_view, GlobalConfig, GlobalConfigView, ServiceConfig, ServiceConfigView,
};
use crate::health::alert::{
    delivery_state, fresh_state, step_action, step_fits, step_state, AlertAction,
    ServiceNotificationState,
};
use crate::health::result::{HealthResult, HealthResultView, HealthStatus};
use crate::strmap::StrMap;
use vstd::prelude::*;

verus! {

/// Where a scheduler is in its life.
#[derive(Clone, Copy, Debug, PartialEq, Eq, Structural)]
pub enum SchedulerPhase {
    /// Made, not started yet.
    Created,
    /// Started, with a task for each service.
    Running,
    /// Stopped for good.
    Stopped,
}

/// Why the scheduler refuses an operation.
#[derive(Clone, Copy, Debug, PartialEq, Eq, Structural)]
pub enum SchedulerError {
    /// It was started before.
    AlreadyStarted,
    /// It was not started yet.
    NotStarted,
    /// It was stopped.
    Stopped,
}

/// Counts of what the notifier was asked to send.
#[derive(Clone, Copy, Debug, PartialEq, Eq, Structural)]
pub struct NotificationStats {
    /// How many notifications were attempted.
    pub total_sent: u32,
    /// How many of them were delivered.
    pub successful_sent: u32,
    /// How many of them failed.
    pub failed_sent: u32,
    /// When the last one was attempted.
    pub last_notification_time: Option<u64>,
}

/// A summary of the scheduler.
#[derive(Clone, Copy, Debug, PartialEq, Eq, Structural)]
pub struct SchedulerStatus {
    /// How many services have a task.
    pub running_tasks: usize,
    /// How many services the scheduler was started with.
    pub total_services: usize,
    /// Whether the scheduler is running.
    pub is_running: bool,
    /// Counts of notifications.
    pub notification_stats: NotificationStats,
}

/// What the caller is to do with its tasks.
#[derive(Debug)]
pub enum TaskCommand {
    /// Spawn a task that probes `service` every `interval_secs` seconds, the
    /// first time after one interval.
    Spawn { service: ServiceConfig, interval_secs: u64 },
    /// Cancel the task of the service of this name.
    Cancel { name: String },
}

/// What a `TaskCommand` says.
pub enum TaskCommandView {
    Spawn { service: ServiceConfigView, interval_secs: u64 },
    Cancel { name: Seq<char> },
}

impl View for TaskCommand {
    type V = TaskCommandView;

    open spec fn view(&self) -> TaskCommandView {
        match self {
            TaskCommand::Spawn { service, interval_secs } => TaskCommandView::Spawn {
                service: service@,
                interval_secs: *interval_secs,
            },
            TaskCommand::Cancel { name } => TaskCommandView::Cancel { name: name@ },
        }
    }
}

/// The views of a list of commands, in order.
pub open spec fn commands_view(commands: Seq<TaskCommand>) -> Seq<TaskCommandView> {
    Seq::new(commands.len(), |i: int| commands[i]@)
}

/// The answer to a task that asks whether it may probe.
#[derive(Clone, Copy, Debug, PartialEq, Eq, Structural)]
pub enum ProbeGate {
    /// Go ahead; a permit is held until the probe is reported or given up.
    Run,
    /// Every permit is taken; skip this tick.
    SkipBusy,
    /// The service's last probe is still in flight; skip this tick.
    SkipInFlight,
    /// The service has no task here; the asking task is to end.
    SkipGone,
}

/// What the scheduler keeps for one service.
#[derive(Debug)]
pub struct TaskEntry {
    /// The service as configured when its task was started.
    pub service: ServiceConfig,
    /// Seconds between two probes.
    pub interval_secs: u64,
    /// Whether a probe is in flight.
    pub probing: bool,
    /// The alert state of the service.
    pub alert: ServiceNotificationState,
}

/// What the scheduler keeps for one service, with the name it is kept under.
pub struct TaskView {
    pub name: Seq<char>,
    pub service: ServiceConfigView,
    pub interval_secs: u64,
    pub probing: bool,
    pub alert: ServiceNotificationState,
}

impl Clone for TaskEntry {
    fn clone(&self) -> (r: Self)
        ensures
            r.service@ == self.service@,
            r.interval_secs == self.interval_secs,
            r.probing == self.probing,
            r.alert == self.alert,
    {
        TaskEntry {
            service: self.service.clone(),
            interval_secs: self.interval_secs,
            probing: self.probing,
            alert: self.alert,
        }
    }
}

/// The entry `e` as kept under `name`.
pub open spec fn task_view(name: Seq<char>, e: TaskEntry) -> TaskView {
    TaskView {
        name,
        service: e.service@,
        interval_secs: e.interval_secs,
        probing: e.probing,
        alert: e.alert,
    }
}

/// The entries of a task table, in order.
pub open spec fn tasks_view(m: StrMap<TaskEntry>) -> Seq<TaskView> {
    Seq::new(m.keys().len(), |i: int| task_view(m.keys()[i], m.vals()[i]))
}

/// The names of the tasks, in order.
pub open spec fn task_names(tasks: Seq<TaskView>) -> Seq<Seq<char>> {
    Seq::new(tasks.len(), |i: int| tasks[i].name)
}

/// The position of the task named `name`, if there is one.
pub open spec fn find_task(tasks: Seq<TaskView>, name: Seq<char>) -> Option<int> {
    if task_names(tasks).contains(name) {
        Some(task_names(tasks).index_of(name))
    } else {
        None
    }
}

/// How many of the tasks have a probe in flight.
pub open spec fn probing_count(tasks: Seq<TaskView>) -> nat
    decreases tasks.len(),
{
    if tasks.len() == 0 {
        0
    } else {
        probing_count(tasks.drop_last()) + if tasks.last().probing {
            1nat
        } else {
            0nat
        }
    }
}

/// What a scheduler holds.
pub struct SchedulerView {
    pub phase: SchedulerPhase,
    pub global: GlobalConfigView,
    pub tasks: Seq<TaskView>,
    pub permits: usize,
    pub total_services: usize,
    pub stats: NotificationStats,
}

/// Whether a scheduler is in order: no two tasks share a name, each task is
/// kept under the name of its service, no more probes are in flight than
/// there are permits, and only a running scheduler has tasks.
pub open spec fn scheduler_wf(v: SchedulerView) -> bool {
    &&& task_names(v.tasks).no_duplicates()
    &&& forall|i: int| 0 <= i < v.tasks.len() ==> (#[trigger] v.tasks[i]).service.name
        == v.tasks[i].name
    &&& probing_count(v.tasks) <= v.permits
    &&& v.phase != SchedulerPhase::Running ==> v.tasks.len() == 0
}

/// The tasks without the one named `name`.
pub open spec fn tasks_without(tasks: Seq<TaskView>, name: Seq<char>) -> Seq<TaskView> {
    match find_task(tasks, name) {
        Some(i) => tasks.remove(i),
        None => tasks,
    }
}

/// Seconds between two probes of `service`: its own interval, or the default.
pub open spec fn effective_interval(global: GlobalConfigView, service: ServiceConfigView) -> u64 {
    match service.check_interval_seconds {
        Some(secs) => secs,
        None => global.check_interval_seconds,
    }
}

/// The entry of a task that was just started for `service`.
pub open spec fn new_task(global: GlobalConfigView, service: ServiceConfigView) -> TaskView {
    TaskView {
        name: service.name,
        service,
        interval_secs: effective_interval(global, service),
        probing: false,
        alert: fresh_state(),
    }
}

/// The tasks after one was started for `service`: a task it had is gone, and
/// a new one stands at the end.
pub open spec fn tasks_started(
    tasks: Seq<TaskView>,
    global: GlobalConfigView,
    service: ServiceConfigView,
) -> Seq<TaskView> {
    tasks_without(tasks, service.name).push(new_task(global, service))
}

/// The commands for stopping the task named `name`.
pub open spec fn stop_commands(tasks: Seq<TaskView>, name: Seq<char>) -> Seq<TaskCommandView> {
    if find_task(tasks, name) is Some {
        seq![TaskCommandView::Cancel { name }]
    } else {
        Seq::empty()
    }
}

/// The commands for starting a task for `service`: the cancelling of a task
/// it had, then the spawning of the new one.
pub open spec fn start_commands(
    tasks: Seq<TaskView>,
    global: GlobalConfigView,
    service: ServiceConfigView,
) -> Seq<TaskCommandView> {
    stop_commands(tasks, service.name).push(
        TaskCommandView::Spawn { service, interval_secs: effective_interval(global, service) },
    )
}

/// The tasks after a task was started for each enabled one of the first `n`
/// services.
pub open spec fn tasks_after_start(
    tasks: Seq<TaskView>,
    global: GlobalConfigView,
    services: Seq<ServiceConfigView>,
    n: int,
) -> Seq<TaskView>
    decreases n,
{
    if n <= 0 {
        tasks
    } else if services[n - 1].enabled {
        tasks_started(tasks_after_start(tasks, global, services, n - 1), global, services[n - 1])
    } else {
        tasks_after_start(tasks, global, services, n - 1)
    }
}

/// The commands for starting a task for each enabled one of the first `n`
/// services.
pub open spec fn commands_after_start(
    tasks: Seq<TaskView>,
    global: GlobalConfigView,
    services: Seq<ServiceConfigView>,
    n: int,
) -> Seq<TaskCommandView>
    decreases n,
{
    if n <= 0 {
        Seq::empty()
    } else if services[n - 1].enabled {
        commands_after_start(tasks, global, services, n - 1) + start_commands(
            tasks_after_start(tasks, global, services, n - 1),
            global,
            services[n - 1],
        )
    } else {
        commands_after_start(tasks, global, services, n - 1)
    }
}

/// Whether an enabled service of the list is named `name`.
pub open spec fn enabled_name(services: Seq<ServiceConfigView>, name: Seq<char>) -> bool {
    exists|i: int| 0 <= i < services.len() && (#[trigger] services[i]).enabled && services[i].name
        == name
}

/// Of the first `n` tasks, those whose service is still enabled in `services`.
pub open spec fn tasks_kept(tasks: Seq<TaskView>, services: Seq<ServiceConfigView>, n: int) -> Seq<
    TaskView,
>
    decreases n,
{
    if n <= 0 {
        Seq::empty()
    } else if enabled_name(services, tasks[n - 1].name) {
        tasks_kept(tasks, services, n - 1).push(tasks[n - 1])
    } else {
        tasks_kept(tasks, services, n - 1)
    }
}

/// The cancelling of those of the first `n` tasks whose service is no longer
/// enabled in `services`.
pub open spec fn commands_dropped(
    tasks: Seq<TaskView>,
    services: Seq<ServiceConfigView>,
    n: int,
) -> Seq<TaskCommandView>
    decreases n,
{
    if n <= 0 {
        Seq::empty()
    } else if !enabled_name(services, tasks[n - 1].name) {
        commands_dropped(tasks, services, n - 1).push(
            TaskCommandView::Cancel { name: tasks[n - 1].name },
        )
    } else {
        commands_dropped(tasks, services, n - 1)
    }
}

/// The tasks after a reload with `services`: the tasks of services that are
/// no longer enabled are gone, and every enabled service has a new task.
pub open spec fn tasks_after_reload(
    tasks: Seq<TaskView>,
    global: GlobalConfigView,
    services: Seq<ServiceConfigView>,
) -> Seq<TaskView> {
    tasks_after_start(
        tasks_kept(tasks, services, tasks.len() as int),
        global,
        services,
        services.len() as int,
    )
}

/// The commands of a reload with `services`: first the cancelling of what is
/// no longer enabled, then the restarting or starting of each enabled service.
pub open spec fn commands_after_reload(
    tasks: Seq<TaskView>,
    global: GlobalConfigView,
    services: Seq<ServiceConfigView>,
) -> Seq<TaskCommandView> {
    commands_dropped(tasks, services, tasks.len() as int) + commands_after_start(
        tasks_kept(tasks, services, tasks.len() as int),
        global,
        services,
        services.len() as int,
    )
}

/// The answer to the task of `name` that asks whether it may probe.
pub open spec fn gate_of(v: SchedulerView, name: Seq<char>) -> ProbeGate {
    match find_task(v.tasks, name) {
        Some(i) => if v.phase != SchedulerPhase::Running {
            ProbeGate::SkipGone
        } else if v.tasks[i].probing {
            ProbeGate::SkipInFlight
        } else if probing_count(v.tasks) >= v.permits {
            ProbeGate::SkipBusy
        } else {
            ProbeGate::Run
        },
        None => ProbeGate::SkipGone,
    }
}

/// The scheduler after the task of `name` asked whether it may probe: where
/// the answer is `Run` its probe is in flight, else nothing changed.
pub open spec fn after_gate(v: SchedulerView, name: Seq<char>) -> SchedulerView {
    if gate_of(v, name) == ProbeGate::Run {
        let i = find_task(v.tasks, name)->0;
        SchedulerView { tasks: v.tasks.update(i, TaskView { probing: true, ..v.tasks[i] }), ..v }
    } else {
        v
    }
}

/// Whether the outcome of a probe of `name` is taken in: the scheduler runs,
/// the service has a task, and that task has a probe in flight.
pub open spec fn accepts(v: SchedulerView, name: Seq<char>) -> bool {
    v.phase == SchedulerPhase::Running && match find_task(v.tasks, name) {
        Some(i) => v.tasks[i].probing,
        None => false,
    }
}

/// Whether the outcome of a probe of `name` can be counted without leaving
/// the range of the counters.
pub open spec fn outcome_fits(
    v: SchedulerView,
    name: Seq<char>,
    status: HealthStatus,
    now: u64,
) -> bool {
    accepts(v, name) ==> {
        let t = v.tasks[find_task(v.tasks, name)->0];
        step_fits(t.alert, t.service.alert_cooldown_secs, status, now)
    }
}

/// What the outcome of a probe of `name` asks of the notifier.
pub open spec fn outcome_action(
    v: SchedulerView,
    name: Seq<char>,
    status: HealthStatus,
    now: u64,
) -> AlertAction {
    if accepts(v, name) {
        let t = v.tasks[find_task(v.tasks, name)->0];
        step_action(t.alert, t.service.failure_threshold, status, now)
    } else {
        AlertAction::NoAction
    }
}

/// The scheduler after the outcome of a probe of `name`: where it is taken
/// in, the probe is no longer in flight and the alert state has moved on;
/// where it is not, nothing changed.
pub open spec fn after_outcome(
    v: SchedulerView,
    name: Seq<char>,
    status: HealthStatus,
    now: u64,
) -> SchedulerView {
    if accepts(v, name) {
        let i = find_task(v.tasks, name)->0;
        let t = v.tasks[i];
        SchedulerView {
            tasks: v.tasks.update(
                i,
                TaskView {
                    probing: false,
                    alert: step_state(
                        t.alert,
                        t.service.failure_threshold,
                        t.service.alert_cooldown_secs,
                        status,
                        now,
                    ),
                    ..t
                },
            ),
            ..v
        }
    } else {
        v
    }
}

/// The failures in a row that an outcome is stamped with: the count after it
/// was taken in, or what it came with where it was not.
pub open spec fn stamped_failures(
    v: SchedulerView,
    name: Seq<char>,
    status: HealthStatus,
    now: u64,
    came_with: u32,
) -> u32 {
    if accepts(v, name) {
        let i = find_task(v.tasks, name)->0;
        after_outcome(v, name, status, now).tasks[i].alert.consecutive_failures
    } else {
        came_with
    }
}

/// The scheduler after the task of `name` gave its probe up.
pub open spec fn after_abandon(v: SchedulerView, name: Seq<char>) -> SchedulerView {
    match find_task(v.tasks, name) {
        Some(i) => SchedulerView {
            tasks: v.tasks.update(i, TaskView { probing: false, ..v.tasks[i] }),
            ..v
        },
        None => v,
    }
}

/// The counts after one more notification was attempted at time `now`.
pub open spec fn stats_after(stats: NotificationStats, delivered: bool, now: u64) -> NotificationStats {
    NotificationStats {
        total_sent: (stats.total_sent + 1) as u32,
        successful_sent: if delivered {
            (stats.successful_sent + 1) as u32
        } else {
            stats.successful_sent
        },
        failed_sent: if delivered {
            stats.failed_sent
        } else {
            (stats.failed_sent + 1) as u32
        },
        last_notification_time: Some(now),
    }
}

/// The scheduler after the notifier reported on `action` for `name`.
pub open spec fn after_delivery(
    v: SchedulerView,
    name: Seq<char>,
    action: AlertAction,
    delivered: bool,
    now: u64,
) -> SchedulerView {
    if action == AlertAction::NoAction {
        v
    } else {
        SchedulerView {
            stats: stats_after(v.stats, delivered, now),
            tasks: match find_task(v.tasks, name) {
                Some(i) => v.tasks.update(
                    i,
                    TaskView {
                        alert: delivery_state(v.tasks[i].alert, action, delivered, now),
                        ..v.tasks[i]
                    },
                ),
                None => v.tasks,
            },
            ..v
        }
    }
}

/// Whether a report of the notifier can be counted without leaving the range
/// of the counters.
pub open spec fn delivery_fits(v: SchedulerView, name: Seq<char>) -> bool {
    &&& v.stats.total_sent < u32::MAX
    &&& v.stats.successful_sent < u32::MAX
    &&& v.stats.failed_sent < u32::MAX
    &&& match find_task(v.tasks, name) {
        Some(i) => v.tasks[i].alert.notification_count < u32::MAX,
        None => true,
    }
}

/// The names of a table's entries are its keys.
pub proof fn lemma_names_are_keys(m: StrMap<TaskEntry>)
    ensures
        task_names(tasks_view(m)) == m.keys(),
        tasks_view(m).len() == m.keys().len(),
{
    assert(task_names(tasks_view(m)) =~= m.keys());
}

/// Counting after one more task was added.
pub proof fn lemma_count_push(tasks: Seq<TaskView>, t: TaskView)
    ensures
        probing_count(tasks.push(t)) == probing_count(tasks) + if t.probing {
            1nat
        } else {
            0nat
        },
{
    assert(tasks.push(t).drop_last() =~= tasks);
}

/// Counting after a task was taken out.
pub proof fn lemma_count_remove(tasks: Seq<TaskView>, i: int)
    requires
        0 <= i < tasks.len(),
    ensures
        probing_count(tasks.remove(i)) + (if tasks[i].probing {
            1nat
        } else {
            0nat
        }) == probing_count(tasks),
    decreases tasks.len(),
{
    if i == tasks.len() - 1 {
        assert(tasks.remove(i) =~= tasks.drop_last());
    } else {
        assert(tasks.remove(i).drop_last() =~= tasks.drop_last().remove(i));
        assert(tasks.remove(i).last() == tasks.last());
        lemma_count_remove(tasks.drop_last(), i);
    }
}

/// Counting after a task was replaced.
pub proof fn lemma_count_update(tasks: Seq<TaskView>, i: int, t: TaskView)
    requires
        0 <= i < tasks.len(),
    ensures
        probing_count(tasks.update(i, t)) + (if tasks[i].probing {
            1nat
        } else {
            0nat
        }) == probing_count(tasks) + (if t.probing {
            1nat
        } else {
            0nat
        }),
    decreases tasks.len(),
{
    if i == tasks.len() - 1 {
        assert(tasks.update(i, t).drop_last() =~= tasks.drop_last());
    } else {
        assert(tasks.update(i, t).drop_last() =~= tasks.drop_last().update(i, t));
        assert(tasks.update(i, t).last() == tasks.last());
        lemma_count_update(tasks.drop_last(), i, t);
    }
}

/// The probe scheduler's state.
#[derive(Debug)]
pub struct TaskScheduler {
    phase: SchedulerPhase,
    config: GlobalConfig,
    tasks: StrMap<TaskEntry>,
    permits: usize,
    total_services: usize,
    stats: NotificationStats,
}

impl View for TaskScheduler {
    type V = SchedulerView;

    closed spec fn view(&self) -> SchedulerView {
        SchedulerView {
            phase: self.phase,
            global: self.config@,
            tasks: tasks_view(self.tasks),
            permits: self.permits,
            total_services: self.total_services,
            stats: self.stats,
        }
    }
}

/// The counts of a scheduler that has sent nothing.
pub open spec fn no_stats() -> NotificationStats {
    NotificationStats {
        total_sent: 0,
        successful_sent: 0,
        failed_sent: 0,
        last_notification_time: None,
    }
}

/// The cancelling of every task, in order.
pub open spec fn cancel_all(tasks: Seq<TaskView>) -> Seq<TaskCommandView> {
    Seq::new(tasks.len(), |i: int| TaskCommandView::Cancel { name: tasks[i].name })
}

impl TaskScheduler {
    /// Whether the scheduler is in order.
    pub open spec fn wf(&self) -> bool {
        scheduler_wf(self@)
    }

    /// A scheduler for the given global settings, not started yet. It has as
    /// many permits as the settings allow probes at once.
    pub fn new(config: GlobalConfig) -> (r: Self)
        ensures
            r.wf(),
            r@ == (SchedulerView {
                phase: SchedulerPhase::Created,
                global: config@,
                tasks: Seq::empty(),
                permits: config.max_concurrent_checks,
                total_services: 0,
                stats: no_stats(),
            }),
    {
        let permits = config.max_concurrent_checks;
        let r = TaskScheduler {
            phase: SchedulerPhase::Created,
            config,
            tasks: StrMap::new(),
            permits,
            total_services: 0,
            stats: NotificationStats {
                total_sent: 0,
                successful_sent: 0,
                failed_sent: 0,
                last_notification_time: None,
            },
        };
        assert(r@.tasks =~= Seq::empty());
        r
    }

    /// Stops the task of the service named `name`, if it has one: its entry
    /// and its alert state are gone, and the caller is told to cancel it.
    pub fn stop_service_task(&mut self, name: &str, commands: &mut Vec<TaskCommand>)
        requires
            old(self).wf(),
        ensures
            final(self).wf(),
            final(self)@ == (SchedulerView {
                tasks: tasks_without(old(self)@.tasks, name@),
                ..old(self)@
            }),
            commands_view(final(commands)@) == commands_view(old(commands)@) + stop_commands(
                old(self)@.tasks,
                name@,
            ),
    {
        let ghost before = self.tasks;
        let ghost before_commands = commands@;
        proof {
            lemma_names_are_keys(before);
        }
        match self.tasks.remove(name) {
            Some(_entry) => {
                commands.push(TaskCommand::Cancel { name: name.to_string() });
                proof {
                    let i = before.keys().index_of(name@);
                    assert(before.keys()[i] == name@);
                    lemma_names_are_keys(self.tasks);
                    assert(tasks_view(self.tasks) =~= tasks_view(before).remove(i));
                    lemma_count_remove(tasks_view(before), i);
                    assert(commands@ =~= before_commands.push(commands@.last()));
                    assert(commands_view(commands@) =~= commands_view(before_commands)
                        + stop_commands(tasks_view(before), name@));
                }
            },
            None => {
                proof {
                    assert(tasks_view(self.tasks) =~= tasks_view(before));
                    assert(commands_view(commands@) =~= commands_view(before_commands)
                        + stop_commands(tasks_view(before), name@));
                }
            },
        }
    }

    /// Starts a task for `service`: a task it had is stopped, its alert state
    /// starts afresh, its interval is its own or the default, and the caller
    /// is told to spawn it.
    pub fn start_service_task(&mut self, service: &ServiceConfig, commands: &mut Vec<TaskCommand>)
        requires
            old(self).wf(),
            old(self)@.phase == SchedulerPhase::Running,
        ensures
            final(self).wf(),
            final(self)@ == (SchedulerView {
                tasks: tasks_started(old(self)@.tasks, old(self)@.global, service@),
                ..old(self)@
            }),
            commands_view(final(commands)@) == commands_view(old(commands)@) + start_commands(
                old(self)@.tasks,
                old(self)@.global,
                service@,
            ),
    {
        let ghost start_view = self@;
        let ghost start_commands_view = commands_view(commands@);
        self.stop_service_task(service.name.as_str(), commands);
        let interval_secs = match service.check_interval_seconds {
            Some(secs) => secs,
            None => self.config.check_interval_seconds,
        };
        let entry = TaskEntry {
            service: service.clone(),
            interval_secs,
            probing: false,
            alert: ServiceNotificationState::default(),
        };
        let ghost mid = self.tasks;
        let ghost mid_commands = commands@;
        proof {
            lemma_names_are_keys(mid);
            let names = task_names(start_view.tasks);
            if names.contains(service@.name) {
                let i = names.index_of(service@.name);
                assert(names[i] == service@.name);
                assert(!mid.keys().contains(service@.name)) by {
                    if mid.keys().contains(service@.name) {
                        let j = mid.keys().index_of(service@.name);
                        assert(mid.keys()[j] == service@.name);
                        let j0 = if j < i {
                            j
                        } else {
                            j + 1
                        };
                        assert(names[j0] == service@.name);
                    }
                }
            }
        }
        self.tasks.insert(service.name.clone(), entry);
        commands.push(TaskCommand::Spawn { service: service.clone(), interval_secs });
        proof {
            lemma_names_are_keys(self.tasks);
            assert(tasks_view(self.tasks) =~= tasks_view(mid).push(
                new_task(start_view.global, service@),
            ));
            lemma_count_push(tasks_view(mid), new_task(start_view.global, service@));
            let spawn = TaskCommandView::Spawn {
                service: service@,
                interval_secs: effective_interval(start_view.global, service@),
            };
            assert(commands@ =~= mid_commands.push(commands@.last()));
            assert(commands@.last()@ == spawn);
            assert(commands_view(commands@) =~= commands_view(mid_commands).push(spawn));
            assert(commands_view(commands@) =~= start_commands_view + start_commands(
                start_view.tasks,
                start_view.global,
                service@,
            ));
        }
    }

    /// Starts the scheduler with a task for each enabled service. A scheduler
    /// that was started or stopped before refuses and stays as it is.
    pub fn start(&mut self, services: &Vec<ServiceConfig>) -> (r: Result<
        Vec<TaskCommand>,
        SchedulerError,
    >)
        requires
            old(self).wf(),
        ensures
            final(self).wf(),
            match r {
                Ok(commands) => old(self)@.phase == SchedulerPhase::Created && final(self)@ == (
                SchedulerView {
                    phase: SchedulerPhase::Running,
                    tasks: tasks_after_start(
                        Seq::empty(),
                        old(self)@.global,
                        services_view(services@),
                        services.len() as int,
                    ),
                    total_services: services.len(),
                    ..old(self)@
                }) && commands_view(commands@) == commands_after_start(
                    Seq::empty(),
                    old(self)@.global,
                    services_view(services@),
                    services.len() as int,
                ),
                Err(e) => final(self)@ == old(self)@ && match old(self)@.phase {
                    SchedulerPhase::Created => false,
                    SchedulerPhase::Running => e == SchedulerError::AlreadyStarted,
                    SchedulerPhase::Stopped => e == SchedulerError::Stopped,
                },
            },
    {
        match self.phase {
            SchedulerPhase::Created => {},
            SchedulerPhase::Running => {
                return Err(SchedulerError::AlreadyStarted);
            },
            SchedulerPhase::Stopped => {
                return Err(SchedulerError::Stopped);
            },
        }
        let ghost start_view = self@;
        self.phase = SchedulerPhase::Running;
        self.total_services = services.len();
        let mut commands: Vec<TaskCommand> = Vec::new();
        assert(start_view.tasks =~= Seq::empty());
        assert(commands_view(commands@) =~= Seq::empty());
        self.start_services(services, &mut commands);
        Ok(commands)
    }

    /// Starts a task for each enabled service of the list, in order.
    fn start_services(&mut self, services: &Vec<ServiceConfig>, commands: &mut Vec<TaskCommand>)
        requires
            old(self).wf(),
            old(self)@.phase == SchedulerPhase::Running,
        ensures
            final(self).wf(),
            final(self)@ == (SchedulerView {
                tasks: tasks_after_start(
                    old(self)@.tasks,
                    old(self)@.global,
                    services_view(services@),
                    services.len() as int,
                ),
                ..old(self)@
            }),
            commands_view(final(commands)@) == commands_view(old(commands)@)
                + commands_after_start(
                old(self)@.tasks,
                old(self)@.global,
                services_view(services@),
                services.len() as int,
            ),
    {
        let ghost start_view = self@;
        let ghost start_commands_view = commands_view(commands@);
        let ghost views = services_view(services@);
        let mut i: usize = 0;
        assert(commands_view(commands@) =~= start_commands_view + commands_after_start(
            start_view.tasks,
            start_view.global,
            views,
            0,
        ));
        while i < services.len()
            invariant
                i <= services.len(),
                views == services_view(services@),
                self.wf(),
                self@ == (SchedulerView {
                    tasks: tasks_after_start(start_view.tasks, start_view.global, views, i as int),
                    ..start_view
                }),
                start_view.phase == SchedulerPhase::Running,
                commands_view(commands@) == start_commands_view + commands_after_start(
                    start_view.tasks,
                    start_view.global,
                    views,
                    i as int,
                ),
            decreases services.len() - i,
        {
            assert(views[i as int] == services@[i as int]@);
            if services[i].enabled {
                self.start_service_task(&services[i], commands);
            }
            i += 1;
            assert(commands_view(commands@) =~= start_commands_view + commands_after_start(
                start_view.tasks,
                start_view.global,
                views,
                i as int,
            ));
        }
    }

    /// Stops the scheduler for good: every task is to be cancelled, and the
    /// table is empty. Stopping a stopped scheduler changes nothing and
    /// cancels nothing.
    pub fn stop(&mut self) -> (commands: Vec<TaskCommand>)
        requires
            old(self).wf(),
        ensures
            final(self).wf(),
            final(self)@ == (SchedulerView {
                phase: SchedulerPhase::Stopped,
                tasks: Seq::empty(),
                ..old(self)@
            }),
            commands_view(commands@) == cancel_all(old(self)@.tasks),
    {
        let ghost start_view = self@;
        let mut commands: Vec<TaskCommand> = Vec::new();
        let n = self.tasks.len();
        let mut i: usize = 0;
        while i < n
            invariant
                i <= n,
                n == self.tasks.keys().len(),
                self@ == start_view,
                commands@.len() == i,
                forall|j: int|
                    0 <= j < i ==> (#[trigger] commands@[j])@ == (TaskCommandView::Cancel {
                        name: start_view.tasks[j].name,
                    }),
            decreases n - i,
        {
            let name = self.tasks.key_at(i).clone();
            commands.push(TaskCommand::Cancel { name });
            i += 1;
        }
        self.tasks.clear();
        self.phase = SchedulerPhase::Stopped;
        proof {
            assert(self@.tasks =~= Seq::empty());
            assert(commands_view(commands@) =~= cancel_all(start_view.tasks));
        }
        commands
    }

    /// Answers the task of the service named `name` that asks whether it may
    /// probe. It may where the scheduler runs, the service has a task with no
    /// probe in flight, and a permit is free; the probe then counts as in
    /// flight and holds the permit.
    pub fn begin_probe(&mut self, name: &str) -> (gate: ProbeGate)
        requires
            old(self).wf(),
        ensures
            final(self).wf(),
            gate == gate_of(old(self)@, name@),
            final(self)@ == after_gate(old(self)@, name@),
    {
        proof {
            lemma_names_are_keys(self.tasks);
        }
        let found = self.tasks.position(name);
        match found {
            Some(i) => {
                if self.phase != SchedulerPhase::Running {
                    return ProbeGate::SkipGone;
                }
                if self.tasks.value_at(i).probing {
                    return ProbeGate::SkipInFlight;
                }
                if self.in_flight() >= self.permits {
                    return ProbeGate::SkipBusy;
                }
                let ghost before = self.tasks;
                let mut entry = self.tasks.value_at(i).clone();
                entry.probing = true;
                self.tasks.set_value_at(i, entry);
                proof {
                    let t = tasks_view(before)[i as int];
                    lemma_names_are_keys(self.tasks);
                    assert(tasks_view(self.tasks) =~= tasks_view(before).update(
                        i as int,
                        TaskView { probing: true, ..t },
                    ));
                    lemma_count_update(tasks_view(before), i as int, TaskView { probing: true, ..t });
                }
                ProbeGate::Run
            },
            None => ProbeGate::SkipGone,
        }
    }

    /// How many probes are in flight. It never exceeds the permits.
    pub fn in_flight(&self) -> (n: usize)
        requires
            self.wf(),
        ensures
            n == probing_count(self@.tasks),
            n <= self@.permits,
    {
        let ghost tasks = tasks_view(self.tasks);
        let len = self.tasks.len();
        let mut n: usize = 0;
        let mut i: usize = 0;
        assert(tasks.subrange(0, 0) =~= Seq::<TaskView>::empty());
        while i < len
            invariant
                i <= len,
                len == self.tasks.keys().len(),
                len == self.tasks.vals().len(),
                tasks == tasks_view(self.tasks),
                n == probing_count(tasks.subrange(0, i as int)),
                n <= i,
            decreases len - i,
        {
            proof {
                assert(tasks.subrange(0, i + 1).drop_last() =~= tasks.subrange(0, i as int));
                assert(tasks.subrange(0, i + 1).last() == tasks[i as int]);
            }
            if self.tasks.value_at(i).probing {
                n += 1;
            }
            i += 1;
        }
        assert(tasks.subrange(0, len as int) =~= tasks);
        n
    }

    /// Takes in the outcome of a probe, made at time `now` on the scheduler's
    /// clock. Where the scheduler runs and the service has a task with a
    /// probe in flight, the permit is released, the alert state of the
    /// service moves on, the outcome is stamped with the failures in a row,
    /// and what to ask of the notifier comes back. Any other outcome is
    /// discarded: nothing changes and nothing is asked.
    pub fn complete_probe(&mut self, result: &mut HealthResult, now: u64) -> (action: AlertAction)
        requires
            old(self).wf(),
            outcome_fits(old(self)@, old(result)@.service_name, old(result)@.status, now),
        ensures
            final(self).wf(),
            action == outcome_action(
                old(self)@,
                old(result)@.service_name,
                old(result)@.status,
                now,
            ),
            final(self)@ == after_outcome(
                old(self)@,
                old(result)@.service_name,
                old(result)@.status,
                now,
            ),
            final(result)@ == (HealthResultView {
                consecutive_failures: stamped_failures(
                    old(self)@,
                    old(result)@.service_name,
                    old(result)@.status,
                    now,
                    old(result)@.consecutive_failures,
                ),
                ..old(result)@
            }),
    {
        proof {
            lemma_names_are_keys(self.tasks);
        }
        if self.phase != SchedulerPhase::Running {
            return AlertAction::NoAction;
        }
        let found = self.tasks.position(result.service_name.as_str());
        match found {
            Some(i) => {
                if !self.tasks.value_at(i).probing {
                    return AlertAction::NoAction;
                }
                let ghost before = self.tasks;
                let mut entry = self.tasks.value_at(i).clone();
                let threshold = entry.service.failure_threshold;
                let cooldown = entry.service.alert_cooldown_secs;
                let action = entry.alert.observe(threshold, cooldown, result.status, now);
                entry.probing = false;
                result.consecutive_failures = entry.alert.consecutive_failures;
                let ghost alert = entry.alert;
                self.tasks.set_value_at(i, entry);
                proof {
                    let t = tasks_view(before)[i as int];
                    let t2 = TaskView { probing: false, alert, ..t };
                    lemma_names_are_keys(self.tasks);
                    assert(tasks_view(self.tasks) =~= tasks_view(before).update(i as int, t2));
                    lemma_count_update(tasks_view(before), i as int, t2);
                }
                action
            },
            None => AlertAction::NoAction,
        }
    }

    /// Takes in that the task of the service named `name` gave its probe up
    /// without an outcome: the permit is released and nothing else changes.
    pub fn abandon_probe(&mut self, name: &str)
        requires
            old(self).wf(),
        ensures
            final(self).wf(),
            final(self)@ == after_abandon(old(self)@, name@),
    {
        proof {
            lemma_names_are_keys(self.tasks);
        }
        match self.tasks.position(name) {
            Some(i) => {
                let ghost before = self.tasks;
                let mut entry = self.tasks.value_at(i).clone();
                entry.probing = false;
                self.tasks.set_value_at(i, entry);
                proof {
                    let t = tasks_view(before)[i as int];
                    let t2 = TaskView { probing: false, ..t };
                    lemma_names_are_keys(self.tasks);
                    assert(tasks_view(self.tasks) =~= tasks_view(before).update(i as int, t2));
                    lemma_count_update(tasks_view(before), i as int, t2);
                }
            },
            None => {},
        }
    }

    /// Takes in what the notifier reported on `action` for the service named
    /// `name`, at time `now`. Every attempt is counted; a delivered alert is
    /// also counted in the alert state of the service, if it still has one.
    pub fn record_delivery(&mut self, name: &str, action: AlertAction, delivered: bool, now: u64)
        requires
            old(self).wf(),
            delivery_fits(old(self)@, name@),
        ensures
            final(self).wf(),
            final(self)@ == after_delivery(old(self)@, name@, action, delivered, now),
    {
        proof {
            lemma_names_are_keys(self.tasks);
        }
        if action == AlertAction::NoAction {
            return ;
        }
        self.stats.total_sent = self.stats.total_sent + 1;
        if delivered {
            self.stats.successful_sent = self.stats.successful_sent + 1;
        } else {
            self.stats.failed_sent = self.stats.failed_sent + 1;
        }
        self.stats.last_notification_time = Some(now);
        match self.tasks.position(name) {
            Some(i) => {
                let ghost before = self.tasks;
                let mut entry = self.tasks.value_at(i).clone();
                entry.alert.record_delivery(action, delivered, now);
                let ghost alert = entry.alert;
                self.tasks.set_value_at(i, entry);
                proof {
                    let t = tasks_view(before)[i as int];
                    let t2 = TaskView { alert, ..t };
                    lemma_names_are_keys(self.tasks);
                    assert(tasks_view(self.tasks) =~= tasks_view(before).update(i as int, t2));
                    lemma_count_update(tasks_view(before), i as int, t2);
                }
            },
            None => {},
        }
    }

    /// Whether the outcome of a probe with this status, made at time `now`,
    /// can be taken in for the service named `name` without a counter
    /// leaving its range.
    pub fn outcome_in_range(&self, name: &str, status: HealthStatus, now: u64) -> (r: bool)
        ensures
            r == outcome_fits(self@, name@, status, now),
    {
        proof {
            lemma_names_are_keys(self.tasks);
        }
        if self.phase != SchedulerPhase::Running || status == HealthStatus::Up {
            return true;
        }
        match self.tasks.position(name) {
            Some(i) => {
                let entry = self.tasks.value_at(i);
                !entry.probing || (entry.alert.consecutive_failures < u32::MAX && now <= u64::MAX
                    - entry.service.alert_cooldown_secs)
            },
            None => true,
        }
    }

    /// Whether a report of the notifier for the service named `name` can be
    /// counted without a counter leaving its range.
    pub fn delivery_in_range(&self, name: &str) -> (r: bool)
        ensures
            r == delivery_fits(self@, name@),
    {
        proof {
            lemma_names_are_keys(self.tasks);
        }
        if self.stats.total_sent == u32::MAX || self.stats.successful_sent == u32::MAX
            || self.stats.failed_sent == u32::MAX {
            return false;
        }
        match self.tasks.position(name) {
            Some(i) => self.tasks.value_at(i).alert.notification_count < u32::MAX,
            None => true,
        }
    }

    /// A summary of the scheduler.
    pub fn get_status(&self) -> (status: SchedulerStatus)
        ensures
            status == (SchedulerStatus {
                running_tasks: self@.tasks.len() as usize,
                total_services: self@.total_services,
                is_running: self@.phase == SchedulerPhase::Running,
                notification_stats: self@.stats,
            }),
    {
        SchedulerStatus {
            running_tasks: self.tasks.len(),
            total_services: self.total_services,
            is_running: self.phase == SchedulerPhase::Running,
            notification_stats: self.stats,
        }
    }

    /// The alert state of the service named `name`, if it has a task.
    pub fn alert_state(&self, name: &str) -> (r: Option<ServiceNotificationState>)
        ensures
            r == match find_task(self@.tasks, name@) {
                Some(i) => Some(self@.tasks[i].alert),
                None => None,
            },
    {
        proof {
            lemma_names_are_keys(self.tasks);
        }
        match self.tasks.position(name) {
            Some(i) => Some(self.tasks.value_at(i).alert),
            None => None,
        }
    }
}

/// The scheduler after one difference was applied: an added service gets a
/// task, a removed one loses its task, a modified one has its task stopped
/// and started anew, and a changed global block is taken over as `global`.
pub open spec fn view_after_diff(
    v: SchedulerView,
    d: ConfigDiffView,
    global: GlobalConfigView,
) -> SchedulerView {
    match d {
        ConfigDiffView::GlobalConfigModified => SchedulerView { global, ..v },
        ConfigDiffView::ServiceAdded(s) => SchedulerView {
            tasks: tasks_started(v.tasks, v.global, s),
            ..v
        },
        ConfigDiffView::ServiceRemoved(name) => SchedulerView {
            tasks: tasks_without(v.tasks, name),
            ..v
        },
        ConfigDiffView::ServiceModified { old, new } => SchedulerView {
            tasks: tasks_started(v.tasks, v.global, new),
            ..v
        },
    }
}

/// The commands for applying one difference.
pub open spec fn commands_of_diff(v: SchedulerView, d: ConfigDiffView) -> Seq<TaskCommandView> {
    match d {
        ConfigDiffView::GlobalConfigModified => Seq::empty(),
        ConfigDiffView::ServiceAdded(s) => start_commands(v.tasks, v.global, s),
        ConfigDiffView::ServiceRemoved(name) => stop_commands(v.tasks, name),
        ConfigDiffView::ServiceModified { old, new } => start_commands(v.tasks, v.global, new),
    }
}

/// The scheduler after the first `n` differences were applied in order.
pub open spec fn view_after_diffs(
    v: SchedulerView,
    diffs: Seq<ConfigDiffView>,
    global: GlobalConfigView,
    n: int,
) -> SchedulerView
    decreases n,
{
    if n <= 0 {
        v
    } else {
        view_after_diff(view_after_diffs(v, diffs, global, n - 1), diffs[n - 1], global)
    }
}

/// The commands for applying the first `n` differences in order.
pub open spec fn commands_after_diffs(
    v: SchedulerView,
    diffs: Seq<ConfigDiffView>,
    global: GlobalConfigView,
    n: int,
) -> Seq<TaskCommandView>
    decreases n,
{
    if n <= 0 {
        Seq::empty()
    } else {
        commands_after_diffs(v, diffs, global, n - 1) + commands_of_diff(
            view_after_diffs(v, diffs, global, n - 1),
            diffs[n - 1],
        )
    }
}

/// The tasks kept from a prefix have no more probes in flight than the prefix.
pub proof fn lemma_kept_count(tasks: Seq<TaskView>, services: Seq<ServiceConfigView>, n: int)
    requires
        0 <= n <= tasks.len(),
    ensures
        probing_count(tasks_kept(tasks, services, n)) <= probing_count(tasks.subrange(0, n)),
    decreases n,
{
    if n > 0 {
        lemma_kept_count(tasks, services, n - 1);
        assert(tasks.subrange(0, n).drop_last() =~= tasks.subrange(0, n - 1));
        assert(tasks.subrange(0, n).last() == tasks[n - 1]);
        lemma_count_push(tasks_kept(tasks, services, n - 1), tasks[n - 1]);
    } else {
        assert(tasks.subrange(0, 0) =~= Seq::<TaskView>::empty());
    }
}

/// Whether an enabled service of the list is named `name`.
pub fn is_enabled_name(services: &Vec<ServiceConfig>, name: &str) -> (r: bool)
    ensures
        r == enabled_name(services_view(services@), name@),
{
    let ghost views = services_view(services@);
    let mut i: usize = 0;
    while i < services.len()
        invariant
            i <= services.len(),
            views == services_view(services@),
            forall|j: int| 0 <= j < i ==> !((#[trigger] views[j]).enabled && views[j].name == name@),
        decreases services.len() - i,
    {
        assert(views[i as int] == services@[i as int]@);
        if services[i].enabled && crate::text::str_equal(services[i].name.as_str(), name) {
            return true;
        }
        i += 1;
    }
    false
}

impl TaskScheduler {
    /// Drops the tasks of the services that `services` no longer enables.
    fn drop_disabled(&mut self, services: &Vec<ServiceConfig>, commands: &mut Vec<TaskCommand>)
        requires
            old(self).wf(),
            old(commands)@.len() == 0,
        ensures
            final(self).wf(),
            final(self)@ == (SchedulerView {
                tasks: tasks_kept(
                    old(self)@.tasks,
                    services_view(services@),
                    old(self)@.tasks.len() as int,
                ),
                ..old(self)@
            }),
            commands_view(final(commands)@) == commands_dropped(
                old(self)@.tasks,
                services_view(services@),
                old(self)@.tasks.len() as int,
            ),
    {
        let ghost start_view = self@;
        let ghost olds = tasks_view(self.tasks);
        let ghost views = services_view(services@);
        let mut kept: StrMap<TaskEntry> = StrMap::new();
        let n = self.tasks.len();
        let mut i: usize = 0;
        proof {
            lemma_names_are_keys(self.tasks);
            assert(tasks_view(kept) =~= tasks_kept(olds, views, 0));
            assert(commands_view(commands@) =~= commands_dropped(olds, views, 0));
        }
        while i < n
            invariant
                i <= n,
                n == self.tasks.keys().len(),
                n == self.tasks.vals().len(),
                self@ == start_view,
                self.wf(),
                self.tasks.wf(),
                olds == tasks_view(self.tasks),
                views == services_view(services@),
                kept.wf(),
                tasks_view(kept) == tasks_kept(olds, views, i as int),
                commands_view(commands@) == commands_dropped(olds, views, i as int),
                forall|k: Seq<char>| #[trigger]
                    kept.has(k) ==> exists|j: int| 0 <= j < i && self.tasks.keys()[j] == k,
                forall|j: int|
                    0 <= j < tasks_view(kept).len() ==> (#[trigger] tasks_view(
                        kept,
                    )[j]).service.name == tasks_view(kept)[j].name,
            decreases n - i,
        {
            let key = self.tasks.key_at(i);
            let entry = self.tasks.value_at(i);
            let ghost before_kept = kept;
            let ghost before_commands = commands@;
            proof {
                assert(olds[i as int] == task_view(self.tasks.keys()[i as int], *entry));
                assert(!kept.has(key@)) by {
                    if kept.has(key@) {
                        let j = choose|j: int| 0 <= j < i && self.tasks.keys()[j] == key@;
                        assert(self.tasks.keys()[j] == self.tasks.keys()[i as int]);
                    }
                }
            }
            if is_enabled_name(services, key.as_str()) {
                kept.insert(key.clone(), entry.clone());
                proof {
                    assert(tasks_view(kept) =~= tasks_view(before_kept).push(olds[i as int]));
                    assert forall|k: Seq<char>| #[trigger] kept.has(k) implies exists|j: int|
                        0 <= j < i + 1 && self.tasks.keys()[j] == k by {
                        crate::strmap::lemma_insert_keys(before_kept, kept, key@, k);
                        if k == key@ {
                            assert(self.tasks.keys()[i as int] == k);
                        } else {
                            let j = choose|j: int| 0 <= j < i && self.tasks.keys()[j] == k;
                            assert(self.tasks.keys()[j] == k);
                        }
                    }
                }
            } else {
                commands.push(TaskCommand::Cancel { name: key.clone() });
                proof {
                    assert(commands@ =~= before_commands.push(commands@.last()));
                    assert(commands_view(commands@) =~= commands_view(before_commands).push(
                        TaskCommandView::Cancel { name: key@ },
                    ));
                    assert forall|k: Seq<char>| #[trigger] kept.has(k) implies exists|j: int|
                        0 <= j < i + 1 && self.tasks.keys()[j] == k by {
                        let j = choose|j: int| 0 <= j < i && self.tasks.keys()[j] == k;
                        assert(self.tasks.keys()[j] == k);
                    }
                }
            }
            i += 1;
        }
        proof {
            lemma_kept_count(olds, views, n as int);
            assert(olds.subrange(0, n as int) =~= olds);
            lemma_names_are_keys(kept);
        }
        self.tasks = kept;
    }

    /// Reloads the services of a running scheduler: the tasks of services
    /// that are no longer enabled are stopped, and every enabled service gets
    /// a new task, whether it had one or not. A scheduler that does not run
    /// refuses and stays as it is.
    pub fn reload_config(&mut self, services: &Vec<ServiceConfig>) -> (r: Result<
        Vec<TaskCommand>,
        SchedulerError,
    >)
        requires
            old(self).wf(),
        ensures
            final(self).wf(),
            match r {
                Ok(commands) => old(self)@.phase == SchedulerPhase::Running && final(self)@ == (
                SchedulerView {
                    tasks: tasks_after_reload(
                        old(self)@.tasks,
                        old(self)@.global,
                        services_view(services@),
                    ),
                    total_services: services.len(),
                    ..old(self)@
                }) && commands_view(commands@) == commands_after_reload(
                    old(self)@.tasks,
                    old(self)@.global,
                    services_view(services@),
                ),
                Err(e) => final(self)@ == old(self)@ && match old(self)@.phase {
                    SchedulerPhase::Created => e == SchedulerError::NotStarted,
                    SchedulerPhase::Running => false,
                    SchedulerPhase::Stopped => e == SchedulerError::Stopped,
                },
            },
    {
        match self.phase {
            SchedulerPhase::Created => {
                return Err(SchedulerError::NotStarted);
            },
            SchedulerPhase::Running => {},
            SchedulerPhase::Stopped => {
                return Err(SchedulerError::Stopped);
            },
        }
        let mut commands: Vec<TaskCommand> = Vec::new();
        self.drop_disabled(services, &mut commands);
        self.start_services(services, &mut commands);
        self.total_services = services.len();
        Ok(commands)
    }

    /// Applies the differences of a configuration update to a running
    /// scheduler, in order. Where the global block changed, `global` is taken
    /// over as it is now in force; tasks that run keep their interval until
    /// they are next started, and the number of permits stays as it was made.
    /// A scheduler that does not run refuses and stays as it is.
    pub fn handle_config_update(
        &mut self,
        update: &ConfigUpdateNotification,
        global: &GlobalConfig,
    ) -> (r: Result<Vec<TaskCommand>, SchedulerError>)
        requires
            old(self).wf(),
        ensures
            final(self).wf(),
            match r {
                Ok(commands) => old(self)@.phase == SchedulerPhase::Running && final(self)@
                    == view_after_diffs(
                    old(self)@,
                    update@.diffs,
                    global@,
                    update@.diffs.len() as int,
                ) && commands_view(commands@) == commands_after_diffs(
                    old(self)@,
                    update@.diffs,
                    global@,
                    update@.diffs.len() as int,
                ),
                Err(e) => final(self)@ == old(self)@ && match old(self)@.phase {
                    SchedulerPhase::Created => e == SchedulerError::NotStarted,
                    SchedulerPhase::Running => false,
                    SchedulerPhase::Stopped => e == SchedulerError::Stopped,
                },
            },
    {
        match self.phase {
            SchedulerPhase::Created => {
                return Err(SchedulerError::NotStarted);
            },
            SchedulerPhase::Running => {},
            SchedulerPhase::Stopped => {
                return Err(SchedulerError::Stopped);
            },
        }
        let ghost start_view = self@;
        let ghost diffs = update@.diffs;
        let mut commands: Vec<TaskCommand> = Vec::new();
        let mut i: usize = 0;
        assert(commands_view(commands@) =~= commands_after_diffs(start_view, diffs, global@, 0));
        while i < update.diffs.len()
            invariant
                i <= update.diffs.len(),
                diffs == update@.diffs,
                diffs.len() == update.diffs.len(),
                self.wf(),
                self@.phase == SchedulerPhase::Running,
                self@ == view_after_diffs(start_view, diffs, global@, i as int),
                commands_view(commands@) == commands_after_diffs(
                    start_view,
                    diffs,
                    global@,
                    i as int,
                ),
            decreases update.diffs.len() - i,
        {
            assert(diffs[i as int] == update.diffs@[i as int]@);
            let ghost before_commands = commands_view(commands@);
            match &update.diffs[i] {
                ConfigDiff::GlobalConfigModified => {
                    self.config = global.clone();
                    assert(commands_view(commands@) =~= before_commands + Seq::empty());
                },
                ConfigDiff::ServiceAdded(service) => {
                    self.start_service_task(service, &mut commands);
                },
                ConfigDiff::ServiceRemoved(name) => {
                    self.stop_service_task(name.as_str(), &mut commands);
                },
                ConfigDiff::ServiceModified { old: _, new } => {
                    self.start_service_task(new, &mut commands);
                },
            }
            i += 1;
        }
        Ok(commands)
    }
}

} // verus!
